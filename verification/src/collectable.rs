//! Native values that are read from the columns of a result row.

mod tuples;

use vstd::prelude::*;
use crate::codes::{SQLITE_DONE, SQLITE_NULL, SQLITE_ROW};
use crate::error::{error_of_code, RsqliteError};
use crate::protocol::{Request, RequestView};
use crate::row::{Row, RowView};
use crate::value::{Double, Kind, Value, ValueView};

verus! {

/// What collecting a value from a row comes to.
pub enum Read<M> {
    /// The row holds all that the value needs. `value` is the value, and
    /// `next` the offset of the first column behind it.
    Got { value: M, next: int },
    /// The row does not hold everything yet; the call that supplies what is
    /// first missing.
    Need(RequestView),
}

/// What a step, and collecting from the row that it may have produced, come
/// to.
pub enum Stepped<M> {
    /// The result of the single-row collection.
    Settled(Result<M, RsqliteError>),
    /// There is a row, and it does not hold everything yet; the call that
    /// supplies what is first missing.
    Need(RequestView),
}

/// A type whose values are collected from consecutive columns of a row.
///
/// The elements of a tuple are collected from left to right over one running
/// column offset, so the order in which they are declared has to be the order
/// of the columns that the query selects. Where the two differ no error is
/// raised: each column is converted to the type that reads it.
pub trait Collectable: Sized {
    /// What a value of the type is, mathematically.
    type Model;

    /// The mathematical value of `self`.
    spec fn model(&self) -> Self::Model;

    /// The number of columns that a statement has to produce for a value of
    /// this type.
    spec fn columns() -> nat;

    /// The value that stands for "no row", in a type that has one.
    spec fn absent() -> Option<Self::Model>;

    /// What collecting from `row`, starting at the offset `column`, comes to.
    spec fn read(row: RowView, column: int) -> Read<Self::Model>;

    /// Collects a value from `row`, starting at `*column`, and moves `*column`
    /// behind the columns that the value took. Where `row` does not hold
    /// everything yet, the error is the call that supplies what is first
    /// missing, and `*column` is left at the column that the call is about.
    fn collect(row: &Row, column: &mut i32) -> (outcome: Result<Self, Request>)
        ensures
            match Self::read(row@, *old(column) as int) {
                Read::Got { value, next } => (outcome matches Ok(v) && v.model() == value
                    && *final(column) == next),
                Read::Need(request) => (outcome matches Err(r) && r@ == request
                    && *final(column) == request.column()),
            },
    ;

    /// What a step that returned `retcode` gives: the value collected from
    /// `row`, which is the row that the step produced, if it produced one;
    /// the value for "no row" or the not-found error, if the statement was
    /// done; the error that `retcode` stands for otherwise.
    fn step_and_collect(retcode: i32, row: &Row) -> (outcome: Result<
        Result<Self, RsqliteError>,
        Request,
    >)
        ensures
            match stepped(retcode, Self::read(row@, 0), Self::absent()) {
                Stepped::Settled(Ok(value)) => (outcome matches Ok(Ok(v)) && v.model() == value),
                Stepped::Settled(Err(error)) => (outcome matches Ok(Err(e)) && e == error),
                Stepped::Need(request) => (outcome matches Err(r) && r@ == request),
            },
    ;

    /// The number of columns that a statement has to produce for a value of
    /// this type; the greatest 32-bit number stands for itself and all
    /// beyond.
    fn columns_needed() -> (needed: i32)
        ensures
            needed == saturated(Self::columns()),
    ;
}

/// The offset of the column behind the one at `column`. Offsets are 32-bit
/// numbers, and the running offset stays at the greatest of them.
pub open spec fn behind(column: int) -> int {
    if column < i32::MAX {
        column + 1
    } else {
        column
    }
}

/// The offset of the column behind the one at `column`.
pub fn column_behind(column: i32) -> (next: i32)
    ensures
        next == behind(column as int),
{
    if column < i32::MAX {
        column + 1
    } else {
        column
    }
}

/// `count` as a 32-bit number, the greatest of which stands for itself and
/// all beyond.
pub open spec fn saturated(count: nat) -> int {
    if count < i32::MAX {
        count as int
    } else {
        i32::MAX as int
    }
}

/// The sum of two column counts, as [`saturated`] has it.
fn add_columns(first: i32, second: i32) -> (sum: i32)
    requires
        0 <= first,
        0 <= second,
    ensures
        sum == saturated((first + second) as nat),
{
    match first.checked_add(second) {
        Some(sum) => sum,
        None => i32::MAX,
    }
}

/// What a step that returned `retcode` comes to, where `read` is what
/// collecting from the start of the row that it produced comes to, and
/// `absent` the value that the target type has for "no row", if it has one.
pub open spec fn stepped<M>(retcode: i32, read: Read<M>, absent: Option<M>) -> Stepped<M> {
    if retcode == SQLITE_ROW {
        match read {
            Read::Got { value, next } => Stepped::Settled(Ok(value)),
            Read::Need(request) => Stepped::Need(request),
        }
    } else if retcode == SQLITE_DONE {
        match absent {
            Some(value) => Stepped::Settled(Ok(value)),
            None => Stepped::Settled(Err(RsqliteError::Notfound)),
        }
    } else {
        Stepped::Settled(Err(error_of_code(retcode)))
    }
}

/// The error of a single-row collection whose step returned `retcode` and
/// produced no row, for a type that has no value for "no row": the not-found
/// error where the statement was done, the error that `retcode` stands for
/// otherwise.
pub open spec fn missing_row_error(retcode: i32) -> RsqliteError {
    if retcode == SQLITE_DONE {
        RsqliteError::Notfound
    } else {
        error_of_code(retcode)
    }
}

/// The error of a single-row collection whose step returned `retcode` and
/// produced no row, for a type that has no value for "no row".
pub fn missing_row(retcode: i32) -> (error: RsqliteError)
    ensures
        error == missing_row_error(retcode),
{
    if retcode == SQLITE_DONE {
        RsqliteError::Notfound
    } else {
        RsqliteError::from(retcode)
    }
}

/// The unit type takes no column.
impl Collectable for () {
    type Model = ();

    open spec fn model(&self) -> () {
        ()
    }

    open spec fn columns() -> nat {
        0
    }

    open spec fn absent() -> Option<()> {
        None
    }

    open spec fn read(row: RowView, column: int) -> Read<()> {
        Read::Got { value: (), next: column }
    }

    fn collect(row: &Row, column: &mut i32) -> (outcome: Result<Self, Request>) {
        Ok(())
    }

    fn step_and_collect(retcode: i32, row: &Row) -> (outcome: Result<
        Result<Self, RsqliteError>,
        Request,
    >) {
        if retcode == SQLITE_ROW {
            let mut column: i32 = 0;
            let value = Self::collect(row, &mut column)?;
            Ok(Ok(value))
        } else {
            Ok(Err(missing_row(retcode)))
        }
    }

    fn columns_needed() -> (needed: i32) {
        0
    }
}

/// An optional value is absent where the column that it starts at holds
/// NULL, and where there is no row at all.
impl<T: Collectable> Collectable for Option<T> {
    type Model = Option<T::Model>;

    open spec fn model(&self) -> Option<T::Model> {
        match self {
            Some(value) => Some(value.model()),
            None => None,
        }
    }

    open spec fn columns() -> nat {
        T::columns()
    }

    open spec fn absent() -> Option<Option<T::Model>> {
        Some(None)
    }

    open spec fn read(row: RowView, column: int) -> Read<Option<T::Model>> {
        match row.class_at(column) {
            None => Read::Need(RequestView::ColumnType { column }),
            Some(class) => if class == SQLITE_NULL {
                Read::Got { value: None, next: behind(column) }
            } else {
                match T::read(row, column) {
                    Read::Got { value, next } => Read::Got { value: Some(value), next },
                    Read::Need(request) => Read::Need(request),
                }
            },
        }
    }

    fn collect(row: &Row, column: &mut i32) -> (outcome: Result<Self, Request>) {
        let at: i32 = *column;
        match row.class(at) {
            None => Err(Request::ColumnType { column: at }),
            Some(class) => {
                if class == SQLITE_NULL {
                    *column = column_behind(at);
                    Ok(None)
                } else {
                    let value = T::collect(row, column)?;
                    Ok(Some(value))
                }
            },
        }
    }

    fn step_and_collect(retcode: i32, row: &Row) -> (outcome: Result<
        Result<Self, RsqliteError>,
        Request,
    >) {
        if retcode == SQLITE_ROW {
            let mut column: i32 = 0;
            let value = Self::collect(row, &mut column)?;
            Ok(Ok(value))
        } else if retcode == SQLITE_DONE {
            Ok(Ok(None))
        } else {
            Ok(Err(RsqliteError::from(retcode)))
        }
    }

    fn columns_needed() -> (needed: i32) {
        T::columns_needed()
    }
}

/// A 32-bit integer takes one column, read as [`Kind::Int`].
impl Collectable for i32 {
    type Model = i32;

    open spec fn model(&self) -> i32 {
        *self
    }

    open spec fn columns() -> nat {
        1
    }

    open spec fn absent() -> Option<i32> {
        None
    }

    open spec fn read(row: RowView, column: int) -> Read<i32> {
        match row.value_at(column) {
            Some(ValueView::Int(value)) => Read::Got { value, next: behind(column) },
            _ => Read::Need(RequestView::Column { column, kind: Kind::Int }),
        }
    }

    fn collect(row: &Row, column: &mut i32) -> (outcome: Result<Self, Request>) {
        let at: i32 = *column;
        match row.value(at) {
            Some(Value::Int(value)) => {
                *column = column_behind(at);
                Ok(*value)
            },
            _ => Err(Request::Column { column: at, kind: Kind::Int }),
        }
    }

    fn step_and_collect(retcode: i32, row: &Row) -> (outcome: Result<
        Result<Self, RsqliteError>,
        Request,
    >) {
        if retcode == SQLITE_ROW {
            let mut column: i32 = 0;
            let value = Self::collect(row, &mut column)?;
            Ok(Ok(value))
        } else {
            Ok(Err(missing_row(retcode)))
        }
    }

    fn columns_needed() -> (needed: i32) {
        1
    }
}

/// A 64-bit integer takes one column, read as [`Kind::Int64`].
impl Collectable for i64 {
    type Model = i64;

    open spec fn model(&self) -> i64 {
        *self
    }

    open spec fn columns() -> nat {
        1
    }

    open spec fn absent() -> Option<i64> {
        None
    }

    open spec fn read(row: RowView, column: int) -> Read<i64> {
        match row.value_at(column) {
            Some(ValueView::Int64(value)) => Read::Got { value, next: behind(column) },
            _ => Read::Need(RequestView::Column { column, kind: Kind::Int64 }),
        }
    }

    fn collect(row: &Row, column: &mut i32) -> (outcome: Result<Self, Request>) {
        let at: i32 = *column;
        match row.value(at) {
            Some(Value::Int64(value)) => {
                *column = column_behind(at);
                Ok(*value)
            },
            _ => Err(Request::Column { column: at, kind: Kind::Int64 }),
        }
    }

    fn step_and_collect(retcode: i32, row: &Row) -> (outcome: Result<
        Result<Self, RsqliteError>,
        Request,
    >) {
        if retcode == SQLITE_ROW {
            let mut column: i32 = 0;
            let value = Self::collect(row, &mut column)?;
            Ok(Ok(value))
        } else {
            Ok(Err(missing_row(retcode)))
        }
    }

    fn columns_needed() -> (needed: i32) {
        1
    }
}

/// A double-precision number takes one column, read as [`Kind::Double`].
impl Collectable for Double {
    type Model = Double;

    open spec fn model(&self) -> Double {
        *self
    }

    open spec fn columns() -> nat {
        1
    }

    open spec fn absent() -> Option<Double> {
        None
    }

    open spec fn read(row: RowView, column: int) -> Read<Double> {
        match row.value_at(column) {
            Some(ValueView::Double(value)) => Read::Got { value, next: behind(column) },
            _ => Read::Need(RequestView::Column { column, kind: Kind::Double }),
        }
    }

    fn collect(row: &Row, column: &mut i32) -> (outcome: Result<Self, Request>) {
        let at: i32 = *column;
        match row.value(at) {
            Some(Value::Double(value)) => {
                *column = column_behind(at);
                Ok(*value)
            },
            _ => Err(Request::Column { column: at, kind: Kind::Double }),
        }
    }

    fn step_and_collect(retcode: i32, row: &Row) -> (outcome: Result<
        Result<Self, RsqliteError>,
        Request,
    >) {
        if retcode == SQLITE_ROW {
            let mut column: i32 = 0;
            let value = Self::collect(row, &mut column)?;
            Ok(Ok(value))
        } else {
            Ok(Err(missing_row(retcode)))
        }
    }

    fn columns_needed() -> (needed: i32) {
        1
    }
}

/// Text takes one column, read as [`Kind::Text`]. Text of length zero is the
/// empty string.
impl Collectable for String {
    type Model = Seq<char>;

    open spec fn model(&self) -> Seq<char> {
        self@
    }

    open spec fn columns() -> nat {
        1
    }

    open spec fn absent() -> Option<Seq<char>> {
        None
    }

    open spec fn read(row: RowView, column: int) -> Read<Seq<char>> {
        match row.value_at(column) {
            Some(ValueView::Text(value)) => Read::Got { value, next: behind(column) },
            _ => Read::Need(RequestView::Column { column, kind: Kind::Text }),
        }
    }

    fn collect(row: &Row, column: &mut i32) -> (outcome: Result<Self, Request>) {
        let at: i32 = *column;
        match row.value(at) {
            Some(Value::Text(value)) => {
                *column = column_behind(at);
                Ok(value.clone())
            },
            _ => Err(Request::Column { column: at, kind: Kind::Text }),
        }
    }

    fn step_and_collect(retcode: i32, row: &Row) -> (outcome: Result<
        Result<Self, RsqliteError>,
        Request,
    >) {
        if retcode == SQLITE_ROW {
            let mut column: i32 = 0;
            let value = Self::collect(row, &mut column)?;
            Ok(Ok(value))
        } else {
            Ok(Err(missing_row(retcode)))
        }
    }

    fn columns_needed() -> (needed: i32) {
        1
    }
}

/// `Vec::into_boxed_slice` of the standard library: the box holds the bytes
/// of the vector, in their order.
#[verifier::external_body]
fn into_boxed_bytes(bytes: Vec<u8>) -> (boxed: Box<[u8]>)
    ensures
        boxed@ == bytes@,
{
    bytes.into_boxed_slice()
}

/// Bytes take one column, read as [`Kind::Blob`]. A blob of length zero is
/// the empty slice.
impl Collectable for Box<[u8]> {
    type Model = Seq<u8>;

    open spec fn model(&self) -> Seq<u8> {
        self@
    }

    open spec fn columns() -> nat {
        1
    }

    open spec fn absent() -> Option<Seq<u8>> {
        None
    }

    open spec fn read(row: RowView, column: int) -> Read<Seq<u8>> {
        match row.value_at(column) {
            Some(ValueView::Blob(value)) => Read::Got { value, next: behind(column) },
            _ => Read::Need(RequestView::Column { column, kind: Kind::Blob }),
        }
    }

    fn collect(row: &Row, column: &mut i32) -> (outcome: Result<Self, Request>) {
        let at: i32 = *column;
        match row.value(at) {
            Some(Value::Blob(value)) => {
                *column = column_behind(at);
                Ok(into_boxed_bytes(value.clone()))
            },
            _ => Err(Request::Column { column: at, kind: Kind::Blob }),
        }
    }

    fn step_and_collect(retcode: i32, row: &Row) -> (outcome: Result<
        Result<Self, RsqliteError>,
        Request,
    >) {
        if retcode == SQLITE_ROW {
            let mut column: i32 = 0;
            let value = Self::collect(row, &mut column)?;
            Ok(Ok(value))
        } else {
            Ok(Err(missing_row(retcode)))
        }
    }

    fn columns_needed() -> (needed: i32) {
        1
    }
}

} // verus!
