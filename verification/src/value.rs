//! The native scalar values that cross the boundary to the engine.

use vstd::prelude::*;
use crate::codes::{SQLITE_BLOB, SQLITE_FLOAT, SQLITE_INTEGER, SQLITE_NULL, SQLITE_TEXT};

verus! {

/// A double-precision number, held as its IEEE 754 bit pattern.
///
/// The library only carries such a number from the caller to the engine and
/// back, so the bits are all it needs.
#[derive(Debug, Clone, Copy, PartialEq, Eq, Structural)]
pub struct Double {
    pub bits: u64,
}

impl Double {
    /// The number with the bit pattern `bits`.
    pub fn from_bits(bits: u64) -> (double: Double)
        ensures
            double.bits == bits,
    {
        Double { bits }
    }

    /// The number's bit pattern.
    pub fn to_bits(self) -> (bits: u64)
        ensures
            bits == self.bits,
    {
        self.bits
    }
}

/// The native type that a column is read as. Each kind is one typed column
/// accessor of the engine, which converts what the column holds to that type.
#[derive(Debug, Clone, Copy, PartialEq, Eq, Structural)]
pub enum Kind {
    /// A 32-bit integer.
    Int,
    /// A 64-bit integer.
    Int64,
    /// A double-precision number.
    Double,
    /// UTF-8 text.
    Text,
    /// A sequence of bytes.
    Blob,
}

/// One scalar value, bound as a parameter or read from a column.
#[derive(Debug, PartialEq, Eq)]
pub enum Value {
    /// NULL. It can be bound; no column is ever read as it.
    Null,
    Int(i32),
    Int64(i64),
    Double(Double),
    Text(String),
    Blob(Vec<u8>),
}

/// What a [`Value`] is: the same cases, over mathematical text and bytes.
pub enum ValueView {
    Null,
    Int(i32),
    Int64(i64),
    Double(Double),
    Text(Seq<char>),
    Blob(Seq<u8>),
}

impl View for Value {
    type V = ValueView;

    open spec fn view(&self) -> ValueView {
        match self {
            Value::Null => ValueView::Null,
            Value::Int(v) => ValueView::Int(*v),
            Value::Int64(v) => ValueView::Int64(*v),
            Value::Double(v) => ValueView::Double(*v),
            Value::Text(v) => ValueView::Text(v@),
            Value::Blob(v) => ValueView::Blob(v@),
        }
    }
}

impl ValueView {
    /// The kind that this value is a reading of; NULL is a reading of none.
    pub open spec fn kind(self) -> Option<Kind> {
        match self {
            ValueView::Null => None,
            ValueView::Int(_) => Some(Kind::Int),
            ValueView::Int64(_) => Some(Kind::Int64),
            ValueView::Double(_) => Some(Kind::Double),
            ValueView::Text(_) => Some(Kind::Text),
            ValueView::Blob(_) => Some(Kind::Blob),
        }
    }

    /// The storage class that the engine gives this value when it is bound:
    /// integers are stored as INTEGER, doubles as FLOAT, text as TEXT, bytes
    /// as BLOB.
    pub open spec fn storage_class(self) -> i32 {
        match self {
            ValueView::Null => SQLITE_NULL,
            ValueView::Int(_) => SQLITE_INTEGER,
            ValueView::Int64(_) => SQLITE_INTEGER,
            ValueView::Double(_) => SQLITE_FLOAT,
            ValueView::Text(_) => SQLITE_TEXT,
            ValueView::Blob(_) => SQLITE_BLOB,
        }
    }
}

impl Clone for Value {
    /// A copy of the value, with its own text or bytes.
    fn clone(&self) -> (copy: Self)
        ensures
            copy@ == self@,
    {
        match self {
            Value::Null => Value::Null,
            Value::Int(v) => Value::Int(*v),
            Value::Int64(v) => Value::Int64(*v),
            Value::Double(v) => Value::Double(*v),
            Value::Text(v) => Value::Text(v.clone()),
            Value::Blob(v) => Value::Blob(v.clone()),
        }
    }
}

impl Value {
    /// The kind that this value is a reading of, if it is one.
    pub fn kind(&self) -> (kind: Option<Kind>)
        ensures
            kind == self@.kind(),
    {
        match self {
            Value::Null => None,
            Value::Int(_) => Some(Kind::Int),
            Value::Int64(_) => Some(Kind::Int64),
            Value::Double(_) => Some(Kind::Double),
            Value::Text(_) => Some(Kind::Text),
            Value::Blob(_) => Some(Kind::Blob),
        }
    }
}

/// A value together with the 1-based position of the placeholder that it is
/// bound to.
#[derive(Debug, PartialEq, Eq)]
pub struct Param {
    pub position: i32,
    pub value: Value,
}

impl Clone for Param {
    /// A copy of the parameter, with its own value.
    fn clone(&self) -> (copy: Self)
        ensures
            copy@ == self@,
    {
        Param { position: self.position, value: self.value.clone() }
    }
}

/// What a [`Param`] is.
pub struct ParamView {
    pub position: int,
    pub value: ValueView,
}

impl View for Param {
    type V = ParamView;

    open spec fn view(&self) -> ParamView {
        ParamView { position: self.position as int, value: self.value@ }
    }
}

/// The views of the parameters in `params`, in the same order.
pub open spec fn param_views(params: Seq<Param>) -> Seq<ParamView> {
    params.map_values(|p: Param| p@)
}

/// `values` at consecutive positions, the first of them at `start`.
pub open spec fn placed(values: Seq<ValueView>, start: int) -> Seq<ParamView> {
    Seq::new(values.len(), |i: int| ParamView { position: start + i, value: values[i] })
}

} // verus!
