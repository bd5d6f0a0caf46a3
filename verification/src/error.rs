//! The errors of the library, and their derivation from the engine's result
//! codes.

use vstd::prelude::*;
use vstd::std_specs::convert::FromSpecImpl;

verus! {

/// What can go wrong in an operation.
///
/// All variants but the first and the last stand for one primary result code
/// of the engine.
#[derive(Debug, Clone, Copy, PartialEq, Eq, Structural)]
pub enum RsqliteError {
    /// The text cannot be handed to the engine as a C string: it holds a zero
    /// byte, at this offset.
    InvalidCString(usize),
    /// SQLITE_ABORT: an operation was aborted prior to completion.
    Abort,
    /// SQLITE_AUTH: an SQL statement being prepared is not authorized.
    Auth,
    /// SQLITE_BUSY: the database file could not be written (or in some cases
    /// read).
    Busy,
    /// SQLITE_CANTOPEN: the engine was unable to open a file.
    CantOpen,
    /// SQLITE_CONSTRAINT: an SQL constraint violation occurred.
    Constraint,
    /// SQLITE_CORRUPT: the database file has been corrupted.
    Corrupt,
    /// SQLITE_ERROR: the generic error code.
    Error,
    /// SQLITE_FULL: a write could not complete because the disk is full.
    Full,
    /// SQLITE_INTERNAL: an internal malfunction of the engine.
    Internal,
    /// SQLITE_INTERRUPT: an operation was interrupted.
    Interrupt,
    /// SQLITE_IOERR: the operating system reported an I/O error.
    IOerr,
    /// SQLITE_LOCKED: a write could not continue because of a conflict within
    /// the same connection, or with another one that shares its cache.
    Locked,
    /// SQLITE_MISMATCH: a datatype mismatch.
    Mismatch,
    /// SQLITE_MISUSE: the interface was used in an undefined or unsupported
    /// way.
    Misuse,
    /// SQLITE_NOLFS: the database grew larger than the file system can handle.
    Nolfs,
    /// SQLITE_NOMEM: the engine was unable to allocate the memory it needed.
    Nomem,
    /// SQLITE_NOTADB: the file does not appear to be a database file.
    Notadb,
    /// SQLITE_NOTFOUND; also what collecting one row gives when there was no
    /// row and the target type has no value for that.
    Notfound,
    /// SQLITE_PERM: the requested access mode for a newly created database
    /// could not be provided.
    Perm,
    /// SQLITE_PROTOCOL: a problem with the file locking protocol.
    Protocol,
    /// SQLITE_RANGE: a parameter number or a column number is out of range.
    Range,
    /// SQLITE_READONLY: an attempt to alter data without write permission.
    Readonly,
    /// SQLITE_SCHEMA: the database schema has changed since the statement was
    /// prepared.
    Schema,
    /// SQLITE_TOOBIG: a string or blob was too large.
    Toobig,
    /// Any other result code, kept as the engine gave it.
    Unknown(i32),
}

/// The primary result code inside `code`: its least significant eight bits.
pub open spec fn primary_code(code: i32) -> i32 {
    code & 255
}

/// The error that the result code `code` stands for.
///
/// Only the primary code decides; a code that names none of the variants is
/// kept whole in [`RsqliteError::Unknown`].
pub open spec fn error_of_code(code: i32) -> RsqliteError {
    let primary = primary_code(code);
    if primary == 4 {
        RsqliteError::Abort
    } else if primary == 23 {
        RsqliteError::Auth
    } else if primary == 5 {
        RsqliteError::Busy
    } else if primary == 14 {
        RsqliteError::CantOpen
    } else if primary == 19 {
        RsqliteError::Constraint
    } else if primary == 11 {
        RsqliteError::Corrupt
    } else if primary == 1 {
        RsqliteError::Error
    } else if primary == 13 {
        RsqliteError::Full
    } else if primary == 2 {
        RsqliteError::Internal
    } else if primary == 9 {
        RsqliteError::Interrupt
    } else if primary == 10 {
        RsqliteError::IOerr
    } else if primary == 6 {
        RsqliteError::Locked
    } else if primary == 20 {
        RsqliteError::Mismatch
    } else if primary == 21 {
        RsqliteError::Misuse
    } else if primary == 22 {
        RsqliteError::Nolfs
    } else if primary == 7 {
        RsqliteError::Nomem
    } else if primary == 26 {
        RsqliteError::Notadb
    } else if primary == 12 {
        RsqliteError::Notfound
    } else if primary == 3 {
        RsqliteError::Perm
    } else if primary == 15 {
        RsqliteError::Protocol
    } else if primary == 25 {
        RsqliteError::Range
    } else if primary == 8 {
        RsqliteError::Readonly
    } else if primary == 17 {
        RsqliteError::Schema
    } else if primary == 18 {
        RsqliteError::Toobig
    } else {
        RsqliteError::Unknown(code)
    }
}

impl From<i32> for RsqliteError {
    /// Reads a result code of the engine as an error.
    fn from(ecode: i32) -> (error: Self) {
        let primary: i32 = ecode & 255;
        match primary {
            4 => RsqliteError::Abort,
            23 => RsqliteError::Auth,
            5 => RsqliteError::Busy,
            14 => RsqliteError::CantOpen,
            19 => RsqliteError::Constraint,
            11 => RsqliteError::Corrupt,
            1 => RsqliteError::Error,
            13 => RsqliteError::Full,
            2 => RsqliteError::Internal,
            9 => RsqliteError::Interrupt,
            10 => RsqliteError::IOerr,
            6 => RsqliteError::Locked,
            20 => RsqliteError::Mismatch,
            21 => RsqliteError::Misuse,
            22 => RsqliteError::Nolfs,
            7 => RsqliteError::Nomem,
            26 => RsqliteError::Notadb,
            12 => RsqliteError::Notfound,
            3 => RsqliteError::Perm,
            15 => RsqliteError::Protocol,
            25 => RsqliteError::Range,
            8 => RsqliteError::Readonly,
            17 => RsqliteError::Schema,
            18 => RsqliteError::Toobig,
            _ => RsqliteError::Unknown(ecode),
        }
    }
}

impl FromSpecImpl<i32> for RsqliteError {
    open spec fn obeys_from_spec() -> bool {
        true
    }

    open spec fn from_spec(ecode: i32) -> Self {
        error_of_code(ecode)
    }
}

/// The primary code is the code's remainder modulo 256, whatever its sign.
pub proof fn primary_code_is_remainder(code: i32)
    ensures
        primary_code(code) == code as int % 256,
        0 <= primary_code(code) < 256,
{
    assert(code & 255 == code as int % 256 && 0 <= code & 255 < 256) by (bit_vector);
}

/// Codes that agree in their least significant eight bits name the same
/// error, unless that error is [`RsqliteError::Unknown`], which keeps its
/// code.
pub proof fn extended_codes_share_their_error(code: i32, other: i32)
    requires
        primary_code(code) == primary_code(other),
    ensures
        error_of_code(code) is Unknown <==> error_of_code(other) is Unknown,
        !(error_of_code(code) is Unknown) ==> error_of_code(code) == error_of_code(other),
        error_of_code(code) is Unknown ==> error_of_code(code) == RsqliteError::Unknown(code),
{
}

} // verus!
