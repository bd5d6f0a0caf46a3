//! The conversation between an operation and the program that drives the
//! engine for it.

use vstd::prelude::*;
use crate::error::RsqliteError;
use crate::value::{Kind, Value, ValueView};

verus! {

/// One call that is to be made on the engine.
///
/// `Open` starts a connection, and `Close` ends the connection it started, if
/// there is one. `Prepare` compiles a statement on the connection; every
/// request after it up to `Finalize` concerns that statement.
#[derive(Debug, PartialEq, Eq)]
pub enum Request {
    /// Open the database at `path`, a C string with its terminating zero,
    /// with the mode `flags`.
    Open { path: Vec<u8>, flags: i32 },
    /// Close the connection. Safe where opening failed and left no handle.
    Close,
    /// Compile `sql`, a C string with its terminating zero, whose length in
    /// bytes counts the terminator.
    Prepare { sql: Vec<u8> },
    /// Report how many columns the statement's rows have.
    ColumnCount,
    /// Release the statement. Safe where preparing failed and left no handle.
    Finalize,
    /// Bind `value` to the placeholder at `position`. Text and bytes are
    /// passed with their length in bytes, and the engine makes its own copy
    /// of them before the call returns.
    Bind { position: i32, value: Value },
    /// Advance the statement by one row.
    Step,
    /// Put the statement back to where it was before it was stepped. Its
    /// parameters have to be bound again before it is reused.
    Reset,
    /// Report the storage class of the column at `column` in the current row.
    ColumnType { column: i32 },
    /// Read the column at `column` of the current row as a value of `kind`.
    Column { column: i32, kind: Kind },
}

/// What a [`Request`] is.
pub enum RequestView {
    Open { path: Seq<u8>, flags: i32 },
    Close,
    Prepare { sql: Seq<u8> },
    ColumnCount,
    Finalize,
    Bind { position: int, value: ValueView },
    Step,
    Reset,
    ColumnType { column: int },
    Column { column: int, kind: Kind },
}

impl RequestView {
    /// The offset of the column that the request is about; 0 for a request
    /// that is about no column.
    pub open spec fn column(self) -> int {
        match self {
            RequestView::ColumnType { column } => column,
            RequestView::Column { column, kind } => column,
            _ => 0,
        }
    }
}

impl Clone for Request {
    /// A copy of the request, with its own text, bytes or value.
    fn clone(&self) -> (copy: Self)
        ensures
            copy@ == self@,
    {
        match self {
            Request::Open { path, flags } => Request::Open { path: path.clone(), flags: *flags },
            Request::Close => Request::Close,
            Request::Prepare { sql } => Request::Prepare { sql: sql.clone() },
            Request::ColumnCount => Request::ColumnCount,
            Request::Finalize => Request::Finalize,
            Request::Bind { position, value } => Request::Bind {
                position: *position,
                value: value.clone(),
            },
            Request::Step => Request::Step,
            Request::Reset => Request::Reset,
            Request::ColumnType { column } => Request::ColumnType { column: *column },
            Request::Column { column, kind } => Request::Column { column: *column, kind: *kind },
        }
    }
}

impl View for Request {
    type V = RequestView;

    open spec fn view(&self) -> RequestView {
        match self {
            Request::Open { path, flags } => RequestView::Open { path: path@, flags: *flags },
            Request::Close => RequestView::Close,
            Request::Prepare { sql } => RequestView::Prepare { sql: sql@ },
            Request::ColumnCount => RequestView::ColumnCount,
            Request::Finalize => RequestView::Finalize,
            Request::Bind { position, value } => RequestView::Bind {
                position: *position as int,
                value: value@,
            },
            Request::Step => RequestView::Step,
            Request::Reset => RequestView::Reset,
            Request::ColumnType { column } => RequestView::ColumnType { column: *column as int },
            Request::Column { column, kind } => RequestView::Column {
                column: *column as int,
                kind: *kind,
            },
        }
    }
}

/// What the engine returned for a [`Request`].
#[derive(Debug, PartialEq, Eq)]
pub enum Reply {
    /// The integer that the call returned: a result code, a column count or a
    /// storage class. This answers every request but `Column`.
    Code(i32),
    /// The value read from a column. This answers `Column`, with a value of
    /// the kind that was asked for; text or bytes of length zero are an empty
    /// value, not NULL.
    Value(Value),
}

/// What a [`Reply`] is.
pub enum ReplyView {
    Code(i32),
    Value(ValueView),
}

impl Clone for Reply {
    /// A copy of the reply, with its own value.
    fn clone(&self) -> (copy: Self)
        ensures
            copy@ == self@,
    {
        match self {
            Reply::Code(code) => Reply::Code(*code),
            Reply::Value(value) => Reply::Value(value.clone()),
        }
    }
}

impl View for Reply {
    type V = ReplyView;

    open spec fn view(&self) -> ReplyView {
        match self {
            Reply::Code(code) => ReplyView::Code(*code),
            Reply::Value(value) => ReplyView::Value(value@),
        }
    }
}

/// The view of the reply that an operation is advanced with, if any.
pub open spec fn reply_view(reply: Option<Reply>) -> Option<ReplyView> {
    match reply {
        Some(r) => Some(r@),
        None => None,
    }
}

/// Where an operation stands after it has been advanced.
#[derive(Debug, PartialEq, Eq)]
pub enum Progress<T> {
    /// The call to make next; its reply is what the operation is advanced
    /// with.
    Ask(Request),
    /// The operation has ended, with this result.
    Done(Result<T, RsqliteError>),
}

/// What a [`Progress`] is, over the model `M` of its result.
pub enum ProgressView<M> {
    Ask(RequestView),
    Done(Result<M, RsqliteError>),
}

} // verus!
