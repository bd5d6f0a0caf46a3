use rsqlite::codes;
use rsqlite::RsqliteError;

#[test]
fn primary_codes_name_their_errors() {
    assert_eq!(RsqliteError::from(4), RsqliteError::Abort);
    assert_eq!(RsqliteError::from(23), RsqliteError::Auth);
    assert_eq!(RsqliteError::from(5), RsqliteError::Busy);
    assert_eq!(RsqliteError::from(14), RsqliteError::CantOpen);
    assert_eq!(RsqliteError::from(19), RsqliteError::Constraint);
    assert_eq!(RsqliteError::from(11), RsqliteError::Corrupt);
    assert_eq!(RsqliteError::from(1), RsqliteError::Error);
    assert_eq!(RsqliteError::from(13), RsqliteError::Full);
    assert_eq!(RsqliteError::from(2), RsqliteError::Internal);
    assert_eq!(RsqliteError::from(9), RsqliteError::Interrupt);
    assert_eq!(RsqliteError::from(10), RsqliteError::IOerr);
    assert_eq!(RsqliteError::from(6), RsqliteError::Locked);
    assert_eq!(RsqliteError::from(20), RsqliteError::Mismatch);
    assert_eq!(RsqliteError::from(21), RsqliteError::Misuse);
    assert_eq!(RsqliteError::from(22), RsqliteError::Nolfs);
    assert_eq!(RsqliteError::from(7), RsqliteError::Nomem);
    assert_eq!(RsqliteError::from(26), RsqliteError::Notadb);
    assert_eq!(RsqliteError::from(12), RsqliteError::Notfound);
    assert_eq!(RsqliteError::from(3), RsqliteError::Perm);
    assert_eq!(RsqliteError::from(15), RsqliteError::Protocol);
    assert_eq!(RsqliteError::from(25), RsqliteError::Range);
    assert_eq!(RsqliteError::from(8), RsqliteError::Readonly);
    assert_eq!(RsqliteError::from(17), RsqliteError::Schema);
    assert_eq!(RsqliteError::from(18), RsqliteError::Toobig);
}

#[test]
fn extended_codes_name_the_error_of_their_primary_code() {
    // SQLITE_READONLY_RECOVERY, SQLITE_BUSY_RECOVERY, SQLITE_IOERR_READ,
    // SQLITE_CONSTRAINT_UNIQUE
    assert_eq!(RsqliteError::from(264), RsqliteError::Readonly);
    assert_eq!(RsqliteError::from(261), RsqliteError::Busy);
    assert_eq!(RsqliteError::from(266), RsqliteError::IOerr);
    assert_eq!(RsqliteError::from(2067), RsqliteError::Constraint);
}

#[test]
fn other_codes_are_kept_whole() {
    assert_eq!(RsqliteError::from(0), RsqliteError::Unknown(0));
    assert_eq!(RsqliteError::from(16), RsqliteError::Unknown(16));
    assert_eq!(RsqliteError::from(24), RsqliteError::Unknown(24));
    assert_eq!(RsqliteError::from(27), RsqliteError::Unknown(27));
    assert_eq!(RsqliteError::from(100), RsqliteError::Unknown(100));
    assert_eq!(RsqliteError::from(101), RsqliteError::Unknown(101));
    assert_eq!(RsqliteError::from(256), RsqliteError::Unknown(256));
    assert_eq!(RsqliteError::from(255), RsqliteError::Unknown(255));
}

#[test]
fn negative_codes_go_by_their_low_eight_bits() {
    // -1 ends in eight one bits, -252 in the bits of 4.
    assert_eq!(RsqliteError::from(-1), RsqliteError::Unknown(-1));
    assert_eq!(RsqliteError::from(-252), RsqliteError::Abort);
    assert_eq!(RsqliteError::from(i32::MIN), RsqliteError::Unknown(i32::MIN));
    assert_eq!(RsqliteError::from(i32::MAX), RsqliteError::Unknown(i32::MAX));
}

#[test]
fn into_gives_the_same_error_as_from() {
    let error: RsqliteError = 25.into();
    assert_eq!(error, RsqliteError::Range);
}

#[test]
fn errors_can_be_copied_and_compared() {
    let error = RsqliteError::InvalidCString(3);
    let copy = error;
    assert_eq!(error, copy);
    assert_ne!(error, RsqliteError::InvalidCString(4));
    assert_ne!(RsqliteError::Unknown(100), RsqliteError::Unknown(101));
    assert!(format!("{:?}", RsqliteError::Notfound).contains("Notfound"));
}

#[test]
fn the_codes_are_those_of_the_engine() {
    assert_eq!(codes::SQLITE_OK, sqlite3_sys::SQLITE_OK);
    assert_eq!(codes::SQLITE_RANGE, sqlite3_sys::SQLITE_RANGE);
    assert_eq!(codes::SQLITE_ROW, sqlite3_sys::SQLITE_ROW);
    assert_eq!(codes::SQLITE_DONE, sqlite3_sys::SQLITE_DONE);
    assert_eq!(codes::SQLITE_INTEGER, sqlite3_sys::SQLITE_INTEGER);
    assert_eq!(codes::SQLITE_FLOAT, sqlite3_sys::SQLITE_FLOAT);
    assert_eq!(codes::SQLITE_TEXT, sqlite3_sys::SQLITE_TEXT);
    assert_eq!(codes::SQLITE_BLOB, sqlite3_sys::SQLITE_BLOB);
    assert_eq!(codes::SQLITE_NULL, sqlite3_sys::SQLITE_NULL);
    assert_eq!(codes::SQLITE_OPEN_READWRITE, sqlite3_sys::SQLITE_OPEN_READWRITE);
    assert_eq!(codes::SQLITE_OPEN_CREATE, sqlite3_sys::SQLITE_OPEN_CREATE);
}

#[test]
fn the_errors_are_named_by_the_codes_of_the_engine() {
    assert_eq!(RsqliteError::from(sqlite3_sys::SQLITE_ABORT), RsqliteError::Abort);
    assert_eq!(RsqliteError::from(sqlite3_sys::SQLITE_AUTH), RsqliteError::Auth);
    assert_eq!(RsqliteError::from(sqlite3_sys::SQLITE_BUSY), RsqliteError::Busy);
    assert_eq!(RsqliteError::from(sqlite3_sys::SQLITE_CANTOPEN), RsqliteError::CantOpen);
    assert_eq!(RsqliteError::from(sqlite3_sys::SQLITE_CONSTRAINT), RsqliteError::Constraint);
    assert_eq!(RsqliteError::from(sqlite3_sys::SQLITE_CORRUPT), RsqliteError::Corrupt);
    assert_eq!(RsqliteError::from(sqlite3_sys::SQLITE_ERROR), RsqliteError::Error);
    assert_eq!(RsqliteError::from(sqlite3_sys::SQLITE_FULL), RsqliteError::Full);
    assert_eq!(RsqliteError::from(sqlite3_sys::SQLITE_INTERNAL), RsqliteError::Internal);
    assert_eq!(RsqliteError::from(sqlite3_sys::SQLITE_INTERRUPT), RsqliteError::Interrupt);
    assert_eq!(RsqliteError::from(sqlite3_sys::SQLITE_IOERR), RsqliteError::IOerr);
    assert_eq!(RsqliteError::from(sqlite3_sys::SQLITE_LOCKED), RsqliteError::Locked);
    assert_eq!(RsqliteError::from(sqlite3_sys::SQLITE_MISMATCH), RsqliteError::Mismatch);
    assert_eq!(RsqliteError::from(sqlite3_sys::SQLITE_MISUSE), RsqliteError::Misuse);
    assert_eq!(RsqliteError::from(sqlite3_sys::SQLITE_NOLFS), RsqliteError::Nolfs);
    assert_eq!(RsqliteError::from(sqlite3_sys::SQLITE_NOMEM), RsqliteError::Nomem);
    assert_eq!(RsqliteError::from(sqlite3_sys::SQLITE_NOTADB), RsqliteError::Notadb);
    assert_eq!(RsqliteError::from(sqlite3_sys::SQLITE_NOTFOUND), RsqliteError::Notfound);
    assert_eq!(RsqliteError::from(sqlite3_sys::SQLITE_PERM), RsqliteError::Perm);
    assert_eq!(RsqliteError::from(sqlite3_sys::SQLITE_PROTOCOL), RsqliteError::Protocol);
    assert_eq!(RsqliteError::from(sqlite3_sys::SQLITE_RANGE), RsqliteError::Range);
    assert_eq!(RsqliteError::from(sqlite3_sys::SQLITE_READONLY), RsqliteError::Readonly);
    assert_eq!(RsqliteError::from(sqlite3_sys::SQLITE_SCHEMA), RsqliteError::Schema);
    assert_eq!(RsqliteError::from(sqlite3_sys::SQLITE_TOOBIG), RsqliteError::Toobig);
}
