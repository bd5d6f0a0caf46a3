//! Tuples of values that are bound together.
//!
//! A tuple binds its elements from left to right over one running index, so
//! each element starts at the position behind the parameters of the elements
//! before it. It does so by binding all its elements but the last, as the
//! tuple that they are, and then the last. Where an element runs out of
//! positions, the elements behind it are not bound.

use std::collections::VecDeque;
use vstd::prelude::*;
use crate::bindable::{placed_concatenation, Bindable};
use crate::error::RsqliteError;
use crate::value::{Param, ValueView};

verus! {

impl<T0: Bindable> Bindable for (T0,) {
    open spec fn params(&self) -> Seq<ValueView> {
        self.0.params()
    }

    fn bind(&self, parameters: &mut VecDeque<Param>, index: &mut i32) -> (outcome: Result<
        (),
        RsqliteError,
    >) {
        self.0.bind(parameters, index)
    }
}

impl<T0: Bindable, T1: Bindable> Bindable for (T0, T1) {
    open spec fn params(&self) -> Seq<ValueView> {
        self.0.params() + self.1.params()
    }

    fn bind(&self, parameters: &mut VecDeque<Param>, index: &mut i32) -> (outcome: Result<
        (),
        RsqliteError,
    >) {
        proof {
            placed_concatenation(self.0.params(), self.1.params(), *index as int);
        }
        (&self.0,).bind(parameters, index)?;
        self.1.bind(parameters, index)
    }
}

impl<T0: Bindable, T1: Bindable, T2: Bindable> Bindable for (T0, T1, T2) {
    open spec fn params(&self) -> Seq<ValueView> {
        self.0.params() + self.1.params() + self.2.params()
    }

    fn bind(&self, parameters: &mut VecDeque<Param>, index: &mut i32) -> (outcome: Result<
        (),
        RsqliteError,
    >) {
        proof {
            placed_concatenation(self.0.params() + self.1.params(), self.2.params(), *index as int);
        }
        (&self.0, &self.1).bind(parameters, index)?;
        self.2.bind(parameters, index)
    }
}

impl<T0: Bindable, T1: Bindable, T2: Bindable, T3: Bindable> Bindable for (T0, T1, T2, T3) {
    open spec fn params(&self) -> Seq<ValueView> {
        self.0.params() + self.1.params() + self.2.params() + self.3.params()
    }

    fn bind(&self, parameters: &mut VecDeque<Param>, index: &mut i32) -> (outcome: Result<
        (),
        RsqliteError,
    >) {
        proof {
            placed_concatenation(
                self.0.params() + self.1.params() + self.2.params(),
                self.3.params(),
                *index as int,
            );
        }
        (&self.0, &self.1, &self.2).bind(parameters, index)?;
        self.3.bind(parameters, index)
    }
}

impl<
    T0: Bindable, T1: Bindable, T2: Bindable, T3: Bindable, T4: Bindable,
> Bindable for (T0, T1, T2, T3, T4) {
    open spec fn params(&self) -> Seq<ValueView> {
        self.0.params() + self.1.params() + self.2.params() + self.3.params() + self.4.params()
    }

    fn bind(&self, parameters: &mut VecDeque<Param>, index: &mut i32) -> (outcome: Result<
        (),
        RsqliteError,
    >) {
        proof {
            placed_concatenation(
                self.0.params() + self.1.params() + self.2.params() + self.3.params(),
                self.4.params(),
                *index as int,
            );
        }
        (&self.0, &self.1, &self.2, &self.3).bind(parameters, index)?;
        self.4.bind(parameters, index)
    }
}

impl<
    T0: Bindable, T1: Bindable, T2: Bindable, T3: Bindable, T4: Bindable, T5: Bindable,
> Bindable for (T0, T1, T2, T3, T4, T5) {
    open spec fn params(&self) -> Seq<ValueView> {
        self.0.params() + self.1.params() + self.2.params() + self.3.params() + self.4.params()
            + self.5.params()
    }

    fn bind(&self, parameters: &mut VecDeque<Param>, index: &mut i32) -> (outcome: Result<
        (),
        RsqliteError,
    >) {
        proof {
            placed_concatenation(
                self.0.params() + self.1.params() + self.2.params() + self.3.params()
                    + self.4.params(),
                self.5.params(),
                *index as int,
            );
        }
        (&self.0, &self.1, &self.2, &self.3, &self.4).bind(parameters, index)?;
        self.5.bind(parameters, index)
    }
}

impl<
    T0: Bindable, T1: Bindable, T2: Bindable, T3: Bindable, T4: Bindable, T5: Bindable,
    T6: Bindable,
> Bindable for (T0, T1, T2, T3, T4, T5, T6) {
    open spec fn params(&self) -> Seq<ValueView> {
        self.0.params() + self.1.params() + self.2.params() + self.3.params() + self.4.params()
            + self.5.params() + self.6.params()
    }

    fn bind(&self, parameters: &mut VecDeque<Param>, index: &mut i32) -> (outcome: Result<
        (),
        RsqliteError,
    >) {
        proof {
            placed_concatenation(
                self.0.params() + self.1.params() + self.2.params() + self.3.params()
                    + self.4.params() + self.5.params(),
                self.6.params(),
                *index as int,
            );
        }
        (&self.0, &self.1, &self.2, &self.3, &self.4, &self.5).bind(parameters, index)?;
        self.6.bind(parameters, index)
    }
}

impl<
    T0: Bindable, T1: Bindable, T2: Bindable, T3: Bindable, T4: Bindable, T5: Bindable,
    T6: Bindable, T7: Bindable,
> Bindable for (T0, T1, T2, T3, T4, T5, T6, T7) {
    open spec fn params(&self) -> Seq<ValueView> {
        self.0.params() + self.1.params() + self.2.params() + self.3.params() + self.4.params()
            + self.5.params() + self.6.params() + self.7.params()
    }

    fn bind(&self, parameters: &mut VecDeque<Param>, index: &mut i32) -> (outcome: Result<
        (),
        RsqliteError,
    >) {
        proof {
            placed_concatenation(
                self.0.params() + self.1.params() + self.2.params() + self.3.params()
                    + self.4.params() + self.5.params() + self.6.params(),
                self.7.params(),
                *index as int,
            );
        }
        (&self.0, &self.1, &self.2, &self.3, &self.4, &self.5, &self.6).bind(parameters, index)?;
        self.7.bind(parameters, index)
    }
}

impl<
    T0: Bindable, T1: Bindable, T2: Bindable, T3: Bindable, T4: Bindable, T5: Bindable,
    T6: Bindable, T7: Bindable, T8: Bindable,
> Bindable for (T0, T1, T2, T3, T4, T5, T6, T7, T8) {
    open spec fn params(&self) -> Seq<ValueView> {
        self.0.params() + self.1.params() + self.2.params() + self.3.params() + self.4.params()
            + self.5.params() + self.6.params() + self.7.params() + self.8.params()
    }

    fn bind(&self, parameters: &mut VecDeque<Param>, index: &mut i32) -> (outcome: Result<
        (),
        RsqliteError,
    >) {
        proof {
            placed_concatenation(
                self.0.params() + self.1.params() + self.2.params() + self.3.params()
                    + self.4.params() + self.5.params() + self.6.params() + self.7.params(),
                self.8.params(),
                *index as int,
            );
        }
        (
            &self.0, &self.1, &self.2, &self.3, &self.4, &self.5, &self.6, &self.7,
        ).bind(parameters, index)?;
        self.8.bind(parameters, index)
    }
}

impl<
    T0: Bindable, T1: Bindable, T2: Bindable, T3: Bindable, T4: Bindable, T5: Bindable,
    T6: Bindable, T7: Bindable, T8: Bindable, T9: Bindable,
> Bindable for (T0, T1, T2, T3, T4, T5, T6, T7, T8, T9) {
    open spec fn params(&self) -> Seq<ValueView> {
        self.0.params() + self.1.params() + self.2.params() + self.3.params() + self.4.params()
            + self.5.params() + self.6.params() + self.7.params() + self.8.params()
            + self.9.params()
    }

    fn bind(&self, parameters: &mut VecDeque<Param>, index: &mut i32) -> (outcome: Result<
        (),
        RsqliteError,
    >) {
        proof {
            placed_concatenation(
                self.0.params() + self.1.params() + self.2.params() + self.3.params()
                    + self.4.params() + self.5.params() + self.6.params() + self.7.params()
                    + self.8.params(),
                self.9.params(),
                *index as int,
            );
        }
        (
            &self.0, &self.1, &self.2, &self.3, &self.4, &self.5, &self.6, &self.7, &self.8,
        ).bind(parameters, index)?;
        self.9.bind(parameters, index)
    }
}

impl<
    T0: Bindable, T1: Bindable, T2: Bindable, T3: Bindable, T4: Bindable, T5: Bindable,
    T6: Bindable, T7: Bindable, T8: Bindable, T9: Bindable, T10: Bindable,
> Bindable for (T0, T1, T2, T3, T4, T5, T6, T7, T8, T9, T10) {
    open spec fn params(&self) -> Seq<ValueView> {
        self.0.params() + self.1.params() + self.2.params() + self.3.params() + self.4.params()
            + self.5.params() + self.6.params() + self.7.params() + self.8.params()
            + self.9.params() + self.10.params()
    }

    fn bind(&self, parameters: &mut VecDeque<Param>, index: &mut i32) -> (outcome: Result<
        (),
        RsqliteError,
    >) {
        proof {
            placed_concatenation(
                self.0.params() + self.1.params() + self.2.params() + self.3.params()
                    + self.4.params() + self.5.params() + self.6.params() + self.7.params()
                    + self.8.params() + self.9.params(),
                self.10.params(),
                *index as int,
            );
        }
        (
            &self.0, &self.1, &self.2, &self.3, &self.4, &self.5, &self.6, &self.7, &self.8,
            &self.9,
        ).bind(parameters, index)?;
        self.10.bind(parameters, index)
    }
}

impl<
    T0: Bindable, T1: Bindable, T2: Bindable, T3: Bindable, T4: Bindable, T5: Bindable,
    T6: Bindable, T7: Bindable, T8: Bindable, T9: Bindable, T10: Bindable, T11: Bindable,
> Bindable for (T0, T1, T2, T3, T4, T5, T6, T7, T8, T9, T10, T11) {
    open spec fn params(&self) -> Seq<ValueView> {
        self.0.params() + self.1.params() + self.2.params() + self.3.params() + self.4.params()
            + self.5.params() + self.6.params() + self.7.params() + self.8.params()
            + self.9.params() + self.10.params() + self.11.params()
    }

    fn bind(&self, parameters: &mut VecDeque<Param>, index: &mut i32) -> (outcome: Result<
        (),
        RsqliteError,
    >) {
        proof {
            placed_concatenation(
                self.0.params() + self.1.params() + self.2.params() + self.3.params()
                    + self.4.params() + self.5.params() + self.6.params() + self.7.params()
                    + self.8.params() + self.9.params() + self.10.params(),
                self.11.params(),
                *index as int,
            );
        }
        (
            &self.0, &self.1, &self.2, &self.3, &self.4, &self.5, &self.6, &self.7, &self.8,
            &self.9, &self.10,
        ).bind(parameters, index)?;
        self.11.bind(parameters, index)
    }
}

impl<
    T0: Bindable, T1: Bindable, T2: Bindable, T3: Bindable, T4: Bindable, T5: Bindable,
    T6: Bindable, T7: Bindable, T8: Bindable, T9: Bindable, T10: Bindable, T11: Bindable,
    T12: Bindable,
> Bindable for (T0, T1, T2, T3, T4, T5, T6, T7, T8, T9, T10, T11, T12) {
    open spec fn params(&self) -> Seq<ValueView> {
        self.0.params() + self.1.params() + self.2.params() + self.3.params() + self.4.params()
            + self.5.params() + self.6.params() + self.7.params() + self.8.params()
            + self.9.params() + self.10.params() + self.11.params() + self.12.params()
    }

    fn bind(&self, parameters: &mut VecDeque<Param>, index: &mut i32) -> (outcome: Result<
        (),
        RsqliteError,
    >) {
        proof {
            placed_concatenation(
                self.0.params() + self.1.params() + self.2.params() + self.3.params()
                    + self.4.params() + self.5.params() + self.6.params() + self.7.params()
                    + self.8.params() + self.9.params() + self.10.params() + self.11.params(),
                self.12.params(),
                *index as int,
            );
        }
        (
            &self.0, &self.1, &self.2, &self.3, &self.4, &self.5, &self.6, &self.7, &self.8,
            &self.9, &self.10, &self.11,
        ).bind(parameters, index)?;
        self.12.bind(parameters, index)
    }
}

} // verus!
