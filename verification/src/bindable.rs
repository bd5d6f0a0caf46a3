//! Native values that are bound to the placeholders of a statement.

mod tuples;

use std::collections::VecDeque;
use vstd::prelude::*;
use vstd::slice::slice_to_vec;
use crate::error::RsqliteError;
use crate::value::{param_views, placed, Double, Param, Value, ValueView};

verus! {

/// How many of `count` parameters find a position from `index` on: positions
/// are 32-bit numbers, so there are none behind the greatest of them.
pub open spec fn fitting(count: nat, index: int) -> nat {
    if index + count <= i32::MAX {
        count
    } else if index <= i32::MAX {
        (i32::MAX - index) as nat
    } else {
        0
    }
}

/// A value that binds itself to the placeholders of a statement.
///
/// Binding writes nothing to the engine at once: it appends the parameters to
/// the queue of the operation that is being set up, which then has them bound
/// one by one, in that order. The running index is shared by all the values
/// of one operation: it starts at 1, and each parameter takes the position
/// that it stands at and moves it on by one.
pub trait Bindable {
    /// The scalar values that `self` binds, in the order of their positions.
    spec fn params(&self) -> Seq<ValueView>;

    /// Appends the parameters of `self` to `parameters`, the first of them at
    /// the position `*index`, and moves `*index` behind the last.
    ///
    /// Where the positions run out, the parameters that have found one are
    /// appended, and the range error is returned.
    fn bind(&self, parameters: &mut VecDeque<Param>, index: &mut i32) -> (outcome: Result<
        (),
        RsqliteError,
    >)
        ensures
            outcome == (if *old(index) + self.params().len() <= i32::MAX {
                Ok::<(), RsqliteError>(())
            } else {
                Err::<(), RsqliteError>(RsqliteError::Range)
            }),
            param_views(final(parameters)@) == param_views(old(parameters)@) + placed(
                self.params(),
                *old(index) as int,
            ).take(fitting(self.params().len(), *old(index) as int) as int),
            *final(index) == *old(index) + fitting(self.params().len(), *old(index) as int),
    ;
}

/// Appends `value` to `parameters` at the position `*index`, and moves
/// `*index` on by one; where `*index` is the last position there is, nothing
/// is appended, and the range error is returned.
pub fn bind_value(value: Value, parameters: &mut VecDeque<Param>, index: &mut i32) -> (outcome:
    Result<(), RsqliteError>)
    ensures
        outcome == (if *old(index) < i32::MAX {
            Ok::<(), RsqliteError>(())
        } else {
            Err::<(), RsqliteError>(RsqliteError::Range)
        }),
        param_views(final(parameters)@) == param_views(old(parameters)@) + placed(
            seq![value@],
            *old(index) as int,
        ).take(fitting(1, *old(index) as int) as int),
        *final(index) == *old(index) + fitting(1, *old(index) as int),
{
    let position: i32 = *index;
    if position == i32::MAX {
        assert(param_views(parameters@) =~= param_views(parameters@) + placed(
            seq![value@],
            position as int,
        ).take(0));
        return Err(RsqliteError::Range);
    }
    parameters.push_back(Param { position, value });
    *index = position + 1;
    assert(param_views(parameters@) =~= param_views(old(parameters)@) + placed(
        seq![value@],
        position as int,
    ).take(1));
    Ok(())
}

/// The parameters of a concatenation that find a position are those of its
/// first part that find one, and behind them those of its second part that
/// find one.
pub proof fn placed_concatenation(first: Seq<ValueView>, second: Seq<ValueView>, start: int)
    requires
        start <= i32::MAX,
    ensures
        fitting((first + second).len(), start) == fitting(first.len(), start) + fitting(
            second.len(),
            start + fitting(first.len(), start),
        ),
        placed(first + second, start).take(fitting((first + second).len(), start) as int)
            == placed(first, start).take(fitting(first.len(), start) as int) + placed(
            second,
            start + fitting(first.len(), start),
        ).take(fitting(second.len(), start + fitting(first.len(), start)) as int),
{
    assert(placed(first + second, start).take(fitting((first + second).len(), start) as int)
        =~= placed(first, start).take(fitting(first.len(), start) as int) + placed(
        second,
        start + fitting(first.len(), start),
    ).take(fitting(second.len(), start + fitting(first.len(), start)) as int));
}

/// Binding is transparent under borrowing: a reference binds as the value
/// that it refers to.
impl<T: Bindable> Bindable for &T {
    open spec fn params(&self) -> Seq<ValueView> {
        (*self).params()
    }

    fn bind(&self, parameters: &mut VecDeque<Param>, index: &mut i32) -> (outcome: Result<
        (),
        RsqliteError,
    >) {
        (*self).bind(parameters, index)
    }
}

/// The unit type binds nothing.
impl Bindable for () {
    open spec fn params(&self) -> Seq<ValueView> {
        Seq::empty()
    }

    fn bind(&self, parameters: &mut VecDeque<Param>, index: &mut i32) -> (outcome: Result<
        (),
        RsqliteError,
    >) {
        assert(param_views(parameters@) + placed(Seq::<ValueView>::empty(), *index as int).take(
            0,
        ) =~= param_views(parameters@));
        Ok(())
    }
}

/// A 32-bit integer is bound as an integer.
impl Bindable for i32 {
    open spec fn params(&self) -> Seq<ValueView> {
        seq![ValueView::Int(*self)]
    }

    fn bind(&self, parameters: &mut VecDeque<Param>, index: &mut i32) -> (outcome: Result<
        (),
        RsqliteError,
    >) {
        bind_value(Value::Int(*self), parameters, index)
    }
}

/// A 64-bit integer is bound as an integer.
impl Bindable for i64 {
    open spec fn params(&self) -> Seq<ValueView> {
        seq![ValueView::Int64(*self)]
    }

    fn bind(&self, parameters: &mut VecDeque<Param>, index: &mut i32) -> (outcome: Result<
        (),
        RsqliteError,
    >) {
        bind_value(Value::Int64(*self), parameters, index)
    }
}

/// A double-precision number is bound as a floating-point number.
impl Bindable for Double {
    open spec fn params(&self) -> Seq<ValueView> {
        seq![ValueView::Double(*self)]
    }

    fn bind(&self, parameters: &mut VecDeque<Param>, index: &mut i32) -> (outcome: Result<
        (),
        RsqliteError,
    >) {
        bind_value(Value::Double(*self), parameters, index)
    }
}

/// A string slice is bound as text. It is well-formed UTF-8, as the engine
/// expects of text; the parameter holds a copy of it.
impl<'a> Bindable for &'a str {
    open spec fn params(&self) -> Seq<ValueView> {
        seq![ValueView::Text((*self)@)]
    }

    fn bind(&self, parameters: &mut VecDeque<Param>, index: &mut i32) -> (outcome: Result<
        (),
        RsqliteError,
    >) {
        bind_value(Value::Text((*self).to_owned()), parameters, index)
    }
}

/// A slice of bytes is bound as a blob; the parameter holds a copy of it.
impl<'a> Bindable for &'a [u8] {
    open spec fn params(&self) -> Seq<ValueView> {
        seq![ValueView::Blob((*self)@)]
    }

    fn bind(&self, parameters: &mut VecDeque<Param>, index: &mut i32) -> (outcome: Result<
        (),
        RsqliteError,
    >) {
        bind_value(Value::Blob(slice_to_vec(*self)), parameters, index)
    }
}

/// An optional value binds as the value that it holds, and as one NULL where
/// it holds none.
impl<T: Bindable> Bindable for Option<T> {
    open spec fn params(&self) -> Seq<ValueView> {
        match self {
            Some(value) => value.params(),
            None => seq![ValueView::Null],
        }
    }

    fn bind(&self, parameters: &mut VecDeque<Param>, index: &mut i32) -> (outcome: Result<
        (),
        RsqliteError,
    >) {
        match self {
            Some(value) => value.bind(parameters, index),
            None => bind_value(Value::Null, parameters, index),
        }
    }
}

} // verus!
