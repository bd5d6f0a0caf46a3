//! The numbers of the engine's C interface that the library's rules speak of.

use vstd::prelude::*;

verus! {

/// Result code: the call succeeded.
pub const SQLITE_OK: i32 = 0;

/// Result code: a parameter number or a column number is out of range.
pub const SQLITE_RANGE: i32 = 25;

/// Result code of a step: the statement has produced a row.
pub const SQLITE_ROW: i32 = 100;

/// Result code of a step: the statement has run to completion.
pub const SQLITE_DONE: i32 = 101;

/// Storage class of a column that holds an integer.
pub const SQLITE_INTEGER: i32 = 1;

/// Storage class of a column that holds a floating-point number.
pub const SQLITE_FLOAT: i32 = 2;

/// Storage class of a column that holds text.
pub const SQLITE_TEXT: i32 = 3;

/// Storage class of a column that holds a blob.
pub const SQLITE_BLOB: i32 = 4;

/// Storage class of a column that holds NULL.
pub const SQLITE_NULL: i32 = 5;

/// Open flag: the connection may read and write.
pub const SQLITE_OPEN_READWRITE: i32 = 2;

/// Open flag: the database is created if it does not exist.
pub const SQLITE_OPEN_CREATE: i32 = 4;

} // verus!
