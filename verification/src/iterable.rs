//! Callbacks that take the values of a row as their arguments.

use vstd::prelude::*;
use crate::collectable::Collectable;

verus! {

/// Something that can be called with the values of a row.
///
/// `T` is the tuple of the values, in the order of the columns that they are
/// collected from, and `R` what a call returns. A function or closure of one
/// to twelve arguments is called with the elements of the tuple as its
/// arguments; a visit hands each row out as such a tuple.
pub trait Iterable<R, T> {
    /// Whether `self` may be called with `args`.
    spec fn accepts(&self, args: T) -> bool;

    /// Whether `out` is something that a call of `self` with `args` may
    /// return.
    spec fn gives(&self, args: T, out: R) -> bool;

    /// Calls `self` with the values in `args`.
    fn iterate(&mut self, args: T) -> (out: R)
        requires
            old(self).accepts(args),
        ensures
            old(self).gives(args, out),
    ;
}

impl<F, R, T0: Collectable> Iterable<R, (T0,)> for F where
    F: FnMut(T0) -> R,
{
    open spec fn accepts(&self, args: (T0,)) -> bool {
        call_requires(*self, (args.0,))
    }

    open spec fn gives(&self, args: (T0,), out: R) -> bool {
        call_ensures(*self, (args.0,), out)
    }

    fn iterate(&mut self, args: (T0,)) -> (out: R) {
        (*self)(args.0)
    }
}

impl<F, R, T0: Collectable, T1: Collectable> Iterable<R, (T0, T1)> for F where
    F: FnMut(T0, T1) -> R,
{
    open spec fn accepts(&self, args: (T0, T1)) -> bool {
        call_requires(*self, (args.0, args.1))
    }

    open spec fn gives(&self, args: (T0, T1), out: R) -> bool {
        call_ensures(*self, (args.0, args.1), out)
    }

    fn iterate(&mut self, args: (T0, T1)) -> (out: R) {
        (*self)(args.0, args.1)
    }
}

impl<F, R, T0: Collectable, T1: Collectable, T2: Collectable> Iterable<R, (T0, T1, T2)> for F where
    F: FnMut(T0, T1, T2) -> R,
{
    open spec fn accepts(&self, args: (T0, T1, T2)) -> bool {
        call_requires(*self, (args.0, args.1, args.2))
    }

    open spec fn gives(&self, args: (T0, T1, T2), out: R) -> bool {
        call_ensures(*self, (args.0, args.1, args.2), out)
    }

    fn iterate(&mut self, args: (T0, T1, T2)) -> (out: R) {
        (*self)(args.0, args.1, args.2)
    }
}

impl<
    F, R, T0: Collectable, T1: Collectable, T2: Collectable, T3: Collectable,
> Iterable<R, (T0, T1, T2, T3)> for F where
    F: FnMut(T0, T1, T2, T3) -> R,
{
    open spec fn accepts(&self, args: (T0, T1, T2, T3)) -> bool {
        call_requires(*self, (args.0, args.1, args.2, args.3))
    }

    open spec fn gives(&self, args: (T0, T1, T2, T3), out: R) -> bool {
        call_ensures(*self, (args.0, args.1, args.2, args.3), out)
    }

    fn iterate(&mut self, args: (T0, T1, T2, T3)) -> (out: R) {
        (*self)(args.0, args.1, args.2, args.3)
    }
}

impl<
    F, R, T0: Collectable, T1: Collectable, T2: Collectable, T3: Collectable, T4: Collectable,
> Iterable<R, (T0, T1, T2, T3, T4)> for F where
    F: FnMut(T0, T1, T2, T3, T4) -> R,
{
    open spec fn accepts(&self, args: (T0, T1, T2, T3, T4)) -> bool {
        call_requires(*self, (args.0, args.1, args.2, args.3, args.4))
    }

    open spec fn gives(&self, args: (T0, T1, T2, T3, T4), out: R) -> bool {
        call_ensures(*self, (args.0, args.1, args.2, args.3, args.4), out)
    }

    fn iterate(&mut self, args: (T0, T1, T2, T3, T4)) -> (out: R) {
        (*self)(args.0, args.1, args.2, args.3, args.4)
    }
}

impl<
    F, R, T0: Collectable, T1: Collectable, T2: Collectable, T3: Collectable, T4: Collectable,
    T5: Collectable,
> Iterable<R, (T0, T1, T2, T3, T4, T5)> for F where
    F: FnMut(T0, T1, T2, T3, T4, T5) -> R,
{
    open spec fn accepts(&self, args: (T0, T1, T2, T3, T4, T5)) -> bool {
        call_requires(*self, (args.0, args.1, args.2, args.3, args.4, args.5))
    }

    open spec fn gives(&self, args: (T0, T1, T2, T3, T4, T5), out: R) -> bool {
        call_ensures(*self, (args.0, args.1, args.2, args.3, args.4, args.5), out)
    }

    fn iterate(&mut self, args: (T0, T1, T2, T3, T4, T5)) -> (out: R) {
        (*self)(args.0, args.1, args.2, args.3, args.4, args.5)
    }
}

impl<
    F, R, T0: Collectable, T1: Collectable, T2: Collectable, T3: Collectable, T4: Collectable,
    T5: Collectable, T6: Collectable,
> Iterable<R, (T0, T1, T2, T3, T4, T5, T6)> for F where
    F: FnMut(T0, T1, T2, T3, T4, T5, T6) -> R,
{
    open spec fn accepts(&self, args: (T0, T1, T2, T3, T4, T5, T6)) -> bool {
        call_requires(*self, (args.0, args.1, args.2, args.3, args.4, args.5, args.6))
    }

    open spec fn gives(&self, args: (T0, T1, T2, T3, T4, T5, T6), out: R) -> bool {
        call_ensures(*self, (args.0, args.1, args.2, args.3, args.4, args.5, args.6), out)
    }

    fn iterate(&mut self, args: (T0, T1, T2, T3, T4, T5, T6)) -> (out: R) {
        (*self)(args.0, args.1, args.2, args.3, args.4, args.5, args.6)
    }
}

impl<
    F, R, T0: Collectable, T1: Collectable, T2: Collectable, T3: Collectable, T4: Collectable,
    T5: Collectable, T6: Collectable, T7: Collectable,
> Iterable<R, (T0, T1, T2, T3, T4, T5, T6, T7)> for F where
    F: FnMut(T0, T1, T2, T3, T4, T5, T6, T7) -> R,
{
    open spec fn accepts(&self, args: (T0, T1, T2, T3, T4, T5, T6, T7)) -> bool {
        call_requires(*self, (args.0, args.1, args.2, args.3, args.4, args.5, args.6, args.7))
    }

    open spec fn gives(&self, args: (T0, T1, T2, T3, T4, T5, T6, T7), out: R) -> bool {
        call_ensures(*self, (args.0, args.1, args.2, args.3, args.4, args.5, args.6, args.7), out)
    }

    fn iterate(&mut self, args: (T0, T1, T2, T3, T4, T5, T6, T7)) -> (out: R) {
        (*self)(args.0, args.1, args.2, args.3, args.4, args.5, args.6, args.7)
    }
}

impl<
    F, R, T0: Collectable, T1: Collectable, T2: Collectable, T3: Collectable, T4: Collectable,
    T5: Collectable, T6: Collectable, T7: Collectable, T8: Collectable,
> Iterable<R, (T0, T1, T2, T3, T4, T5, T6, T7, T8)> for F where
    F: FnMut(T0, T1, T2, T3, T4, T5, T6, T7, T8) -> R,
{
    open spec fn accepts(&self, args: (T0, T1, T2, T3, T4, T5, T6, T7, T8)) -> bool {
        call_requires(*self, (
            args.0, args.1, args.2, args.3, args.4, args.5, args.6, args.7, args.8,
        ))
    }

    open spec fn gives(&self, args: (T0, T1, T2, T3, T4, T5, T6, T7, T8), out: R) -> bool {
        call_ensures(*self, (
            args.0, args.1, args.2, args.3, args.4, args.5, args.6, args.7, args.8,
        ), out)
    }

    fn iterate(&mut self, args: (T0, T1, T2, T3, T4, T5, T6, T7, T8)) -> (out: R) {
        (*self)(args.0, args.1, args.2, args.3, args.4, args.5, args.6, args.7, args.8)
    }
}

impl<
    F, R, T0: Collectable, T1: Collectable, T2: Collectable, T3: Collectable, T4: Collectable,
    T5: Collectable, T6: Collectable, T7: Collectable, T8: Collectable, T9: Collectable,
> Iterable<R, (T0, T1, T2, T3, T4, T5, T6, T7, T8, T9)> for F where
    F: FnMut(T0, T1, T2, T3, T4, T5, T6, T7, T8, T9) -> R,
{
    open spec fn accepts(&self, args: (T0, T1, T2, T3, T4, T5, T6, T7, T8, T9)) -> bool {
        call_requires(*self, (
            args.0, args.1, args.2, args.3, args.4, args.5, args.6, args.7, args.8, args.9,
        ))
    }

    open spec fn gives(&self, args: (T0, T1, T2, T3, T4, T5, T6, T7, T8, T9), out: R) -> bool {
        call_ensures(*self, (
            args.0, args.1, args.2, args.3, args.4, args.5, args.6, args.7, args.8, args.9,
        ), out)
    }

    fn iterate(&mut self, args: (T0, T1, T2, T3, T4, T5, T6, T7, T8, T9)) -> (out: R) {
        (*self)(args.0, args.1, args.2, args.3, args.4, args.5, args.6, args.7, args.8, args.9)
    }
}

impl<
    F, R, T0: Collectable, T1: Collectable, T2: Collectable, T3: Collectable, T4: Collectable,
    T5: Collectable, T6: Collectable, T7: Collectable, T8: Collectable, T9: Collectable,
    T10: Collectable,
> Iterable<R, (T0, T1, T2, T3, T4, T5, T6, T7, T8, T9, T10)> for F where
    F: FnMut(T0, T1, T2, T3, T4, T5, T6, T7, T8, T9, T10) -> R,
{
    open spec fn accepts(&self, args: (T0, T1, T2, T3, T4, T5, T6, T7, T8, T9, T10)) -> bool {
        call_requires(*self, (
            args.0, args.1, args.2, args.3, args.4, args.5, args.6, args.7, args.8, args.9, args.10,
        ))
    }

    open spec fn gives(&self, args: (T0, T1, T2, T3, T4, T5, T6, T7, T8, T9, T10), out: R) -> bool {
        call_ensures(*self, (
            args.0, args.1, args.2, args.3, args.4, args.5, args.6, args.7, args.8, args.9, args.10,
        ), out)
    }

    fn iterate(&mut self, args: (T0, T1, T2, T3, T4, T5, T6, T7, T8, T9, T10)) -> (out: R) {
        (*self)(
            args.0, args.1, args.2, args.3, args.4, args.5, args.6, args.7, args.8, args.9, args.10,
        )
    }
}

impl<
    F, R, T0: Collectable, T1: Collectable, T2: Collectable, T3: Collectable, T4: Collectable,
    T5: Collectable, T6: Collectable, T7: Collectable, T8: Collectable, T9: Collectable,
    T10: Collectable, T11: Collectable,
> Iterable<R, (T0, T1, T2, T3, T4, T5, T6, T7, T8, T9, T10, T11)> for F where
    F: FnMut(T0, T1, T2, T3, T4, T5, T6, T7, T8, T9, T10, T11) -> R,
{
    open spec fn accepts(&self, args: (T0, T1, T2, T3, T4, T5, T6, T7, T8, T9, T10, T11)) -> bool {
        call_requires(*self, (
            args.0, args.1, args.2, args.3, args.4, args.5, args.6, args.7, args.8, args.9, args.10,
            args.11,
        ))
    }

    open spec fn gives(
        &self,
        args: (T0, T1, T2, T3, T4, T5, T6, T7, T8, T9, T10, T11),
        out: R,
    ) -> bool {
        call_ensures(*self, (
            args.0, args.1, args.2, args.3, args.4, args.5, args.6, args.7, args.8, args.9, args.10,
            args.11,
        ), out)
    }

    fn iterate(&mut self, args: (T0, T1, T2, T3, T4, T5, T6, T7, T8, T9, T10, T11)) -> (out: R) {
        (*self)(
            args.0, args.1, args.2, args.3, args.4, args.5, args.6, args.7, args.8, args.9, args.10,
            args.11,
        )
    }
}

} // verus!
