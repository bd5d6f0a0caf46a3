//! Tuples of values that are collected together.
//!
//! A tuple collects its elements from left to right over one running column
//! offset, so each element starts at the column behind the columns of the
//! elements before it. A tuple has no value for "no row".

use vstd::prelude::*;
use crate::codes::SQLITE_ROW;
use crate::collectable::{add_columns, missing_row, Collectable, Read};
use crate::error::RsqliteError;
use crate::protocol::Request;
use crate::row::{Row, RowView};

verus! {

impl<T0: Collectable> Collectable for (T0,) {
    type Model = (T0::Model,);

    open spec fn model(&self) -> (T0::Model,) {
        (self.0.model(),)
    }

    open spec fn columns() -> nat {
        T0::columns()
    }

    open spec fn absent() -> Option<(T0::Model,)> {
        None
    }

    open spec fn read(row: RowView, column: int) -> Read<(T0::Model,)> {
        let r0 = T0::read(row, column);
        if r0 is Need {
            Read::Need(r0->Need_0)
        } else {
            Read::Got { value: (r0->value,), next: r0->next }
        }
    }

    fn collect(row: &Row, column: &mut i32) -> (outcome: Result<Self, Request>) {
        let v0 = T0::collect(row, column)?;
        Ok((v0,))
    }

    fn step_and_collect(retcode: i32, row: &Row) -> (outcome: Result<
        Result<Self, RsqliteError>,
        Request,
    >) {
        if retcode == SQLITE_ROW {
            let mut column: i32 = 0;
            let value = Self::collect(row, &mut column)?;
            Ok(Ok(value))
        } else {
            Ok(Err(missing_row(retcode)))
        }
    }

    fn columns_needed() -> (needed: i32) {
        T0::columns_needed()
    }
}

impl<T0: Collectable, T1: Collectable> Collectable for (T0, T1) {
    type Model = (T0::Model, T1::Model);

    open spec fn model(&self) -> (T0::Model, T1::Model) {
        (self.0.model(), self.1.model())
    }

    open spec fn columns() -> nat {
        T0::columns() + T1::columns()
    }

    open spec fn absent() -> Option<(T0::Model, T1::Model)> {
        None
    }

    open spec fn read(row: RowView, column: int) -> Read<(T0::Model, T1::Model)> {
        let r0 = T0::read(row, column);
        let r1 = T1::read(row, r0->next);
        if r0 is Need {
            Read::Need(r0->Need_0)
        } else if r1 is Need {
            Read::Need(r1->Need_0)
        } else {
            Read::Got { value: (r0->value, r1->value), next: r1->next }
        }
    }

    fn collect(row: &Row, column: &mut i32) -> (outcome: Result<Self, Request>) {
        let v0 = T0::collect(row, column)?;
        let v1 = T1::collect(row, column)?;
        Ok((v0, v1))
    }

    fn step_and_collect(retcode: i32, row: &Row) -> (outcome: Result<
        Result<Self, RsqliteError>,
        Request,
    >) {
        if retcode == SQLITE_ROW {
            let mut column: i32 = 0;
            let value = Self::collect(row, &mut column)?;
            Ok(Ok(value))
        } else {
            Ok(Err(missing_row(retcode)))
        }
    }

    fn columns_needed() -> (needed: i32) {
        let mut needed: i32 = T0::columns_needed();
        needed = add_columns(needed, T1::columns_needed());
        needed
    }
}

impl<T0: Collectable, T1: Collectable, T2: Collectable> Collectable for (T0, T1, T2) {
    type Model = (T0::Model, T1::Model, T2::Model);

    open spec fn model(&self) -> (T0::Model, T1::Model, T2::Model) {
        (self.0.model(), self.1.model(), self.2.model())
    }

    open spec fn columns() -> nat {
        T0::columns() + T1::columns() + T2::columns()
    }

    open spec fn absent() -> Option<(T0::Model, T1::Model, T2::Model)> {
        None
    }

    open spec fn read(row: RowView, column: int) -> Read<(T0::Model, T1::Model, T2::Model)> {
        let r0 = T0::read(row, column);
        let r1 = T1::read(row, r0->next);
        let r2 = T2::read(row, r1->next);
        if r0 is Need {
            Read::Need(r0->Need_0)
        } else if r1 is Need {
            Read::Need(r1->Need_0)
        } else if r2 is Need {
            Read::Need(r2->Need_0)
        } else {
            Read::Got { value: (r0->value, r1->value, r2->value), next: r2->next }
        }
    }

    fn collect(row: &Row, column: &mut i32) -> (outcome: Result<Self, Request>) {
        let v0 = T0::collect(row, column)?;
        let v1 = T1::collect(row, column)?;
        let v2 = T2::collect(row, column)?;
        Ok((v0, v1, v2))
    }

    fn step_and_collect(retcode: i32, row: &Row) -> (outcome: Result<
        Result<Self, RsqliteError>,
        Request,
    >) {
        if retcode == SQLITE_ROW {
            let mut column: i32 = 0;
            let value = Self::collect(row, &mut column)?;
            Ok(Ok(value))
        } else {
            Ok(Err(missing_row(retcode)))
        }
    }

    fn columns_needed() -> (needed: i32) {
        let mut needed: i32 = T0::columns_needed();
        needed = add_columns(needed, T1::columns_needed());
        needed = add_columns(needed, T2::columns_needed());
        needed
    }
}

impl<
    T0: Collectable, T1: Collectable, T2: Collectable, T3: Collectable,
> Collectable for (T0, T1, T2, T3) {
    type Model = (T0::Model, T1::Model, T2::Model, T3::Model);

    open spec fn model(&self) -> (T0::Model, T1::Model, T2::Model, T3::Model) {
        (self.0.model(), self.1.model(), self.2.model(), self.3.model())
    }

    open spec fn columns() -> nat {
        T0::columns() + T1::columns() + T2::columns() + T3::columns()
    }

    open spec fn absent() -> Option<(T0::Model, T1::Model, T2::Model, T3::Model)> {
        None
    }

    open spec fn read(row: RowView, column: int) -> Read<(
        T0::Model, T1::Model, T2::Model, T3::Model,
    )> {
        let r0 = T0::read(row, column);
        let r1 = T1::read(row, r0->next);
        let r2 = T2::read(row, r1->next);
        let r3 = T3::read(row, r2->next);
        if r0 is Need {
            Read::Need(r0->Need_0)
        } else if r1 is Need {
            Read::Need(r1->Need_0)
        } else if r2 is Need {
            Read::Need(r2->Need_0)
        } else if r3 is Need {
            Read::Need(r3->Need_0)
        } else {
            Read::Got { value: (r0->value, r1->value, r2->value, r3->value), next: r3->next }
        }
    }

    fn collect(row: &Row, column: &mut i32) -> (outcome: Result<Self, Request>) {
        let v0 = T0::collect(row, column)?;
        let v1 = T1::collect(row, column)?;
        let v2 = T2::collect(row, column)?;
        let v3 = T3::collect(row, column)?;
        Ok((v0, v1, v2, v3))
    }

    fn step_and_collect(retcode: i32, row: &Row) -> (outcome: Result<
        Result<Self, RsqliteError>,
        Request,
    >) {
        if retcode == SQLITE_ROW {
            let mut column: i32 = 0;
            let value = Self::collect(row, &mut column)?;
            Ok(Ok(value))
        } else {
            Ok(Err(missing_row(retcode)))
        }
    }

    fn columns_needed() -> (needed: i32) {
        let mut needed: i32 = T0::columns_needed();
        needed = add_columns(needed, T1::columns_needed());
        needed = add_columns(needed, T2::columns_needed());
        needed = add_columns(needed, T3::columns_needed());
        needed
    }
}

impl<
    T0: Collectable, T1: Collectable, T2: Collectable, T3: Collectable, T4: Collectable,
> Collectable for (T0, T1, T2, T3, T4) {
    type Model = (T0::Model, T1::Model, T2::Model, T3::Model, T4::Model);

    open spec fn model(&self) -> (T0::Model, T1::Model, T2::Model, T3::Model, T4::Model) {
        (self.0.model(), self.1.model(), self.2.model(), self.3.model(), self.4.model())
    }

    open spec fn columns() -> nat {
        T0::columns() + T1::columns() + T2::columns() + T3::columns() + T4::columns()
    }

    open spec fn absent() -> Option<(T0::Model, T1::Model, T2::Model, T3::Model, T4::Model)> {
        None
    }

    open spec fn read(row: RowView, column: int) -> Read<(
        T0::Model, T1::Model, T2::Model, T3::Model, T4::Model,
    )> {
        let r0 = T0::read(row, column);
        let r1 = T1::read(row, r0->next);
        let r2 = T2::read(row, r1->next);
        let r3 = T3::read(row, r2->next);
        let r4 = T4::read(row, r3->next);
        if r0 is Need {
            Read::Need(r0->Need_0)
        } else if r1 is Need {
            Read::Need(r1->Need_0)
        } else if r2 is Need {
            Read::Need(r2->Need_0)
        } else if r3 is Need {
            Read::Need(r3->Need_0)
        } else if r4 is Need {
            Read::Need(r4->Need_0)
        } else {
            Read::Got {
                value: (r0->value, r1->value, r2->value, r3->value, r4->value),
                next: r4->next,
            }
        }
    }

    fn collect(row: &Row, column: &mut i32) -> (outcome: Result<Self, Request>) {
        let v0 = T0::collect(row, column)?;
        let v1 = T1::collect(row, column)?;
        let v2 = T2::collect(row, column)?;
        let v3 = T3::collect(row, column)?;
        let v4 = T4::collect(row, column)?;
        Ok((v0, v1, v2, v3, v4))
    }

    fn step_and_collect(retcode: i32, row: &Row) -> (outcome: Result<
        Result<Self, RsqliteError>,
        Request,
    >) {
        if retcode == SQLITE_ROW {
            let mut column: i32 = 0;
            let value = Self::collect(row, &mut column)?;
            Ok(Ok(value))
        } else {
            Ok(Err(missing_row(retcode)))
        }
    }

    fn columns_needed() -> (needed: i32) {
        let mut needed: i32 = T0::columns_needed();
        needed = add_columns(needed, T1::columns_needed());
        needed = add_columns(needed, T2::columns_needed());
        needed = add_columns(needed, T3::columns_needed());
        needed = add_columns(needed, T4::columns_needed());
        needed
    }
}

impl<
    T0: Collectable, T1: Collectable, T2: Collectable, T3: Collectable, T4: Collectable,
    T5: Collectable,
> Collectable for (T0, T1, T2, T3, T4, T5) {
    type Model = (T0::Model, T1::Model, T2::Model, T3::Model, T4::Model, T5::Model);

    open spec fn model(&self) -> (
        T0::Model, T1::Model, T2::Model, T3::Model, T4::Model, T5::Model,
    ) {
        (
            self.0.model(), self.1.model(), self.2.model(), self.3.model(), self.4.model(),
            self.5.model(),
        )
    }

    open spec fn columns() -> nat {
        T0::columns() + T1::columns() + T2::columns() + T3::columns() + T4::columns()
            + T5::columns()
    }

    open spec fn absent() -> Option<(
        T0::Model, T1::Model, T2::Model, T3::Model, T4::Model, T5::Model,
    )> {
        None
    }

    open spec fn read(row: RowView, column: int) -> Read<(
        T0::Model, T1::Model, T2::Model, T3::Model, T4::Model, T5::Model,
    )> {
        let r0 = T0::read(row, column);
        let r1 = T1::read(row, r0->next);
        let r2 = T2::read(row, r1->next);
        let r3 = T3::read(row, r2->next);
        let r4 = T4::read(row, r3->next);
        let r5 = T5::read(row, r4->next);
        if r0 is Need {
            Read::Need(r0->Need_0)
        } else if r1 is Need {
            Read::Need(r1->Need_0)
        } else if r2 is Need {
            Read::Need(r2->Need_0)
        } else if r3 is Need {
            Read::Need(r3->Need_0)
        } else if r4 is Need {
            Read::Need(r4->Need_0)
        } else if r5 is Need {
            Read::Need(r5->Need_0)
        } else {
            Read::Got {
                value: (r0->value, r1->value, r2->value, r3->value, r4->value, r5->value),
                next: r5->next,
            }
        }
    }

    fn collect(row: &Row, column: &mut i32) -> (outcome: Result<Self, Request>) {
        let v0 = T0::collect(row, column)?;
        let v1 = T1::collect(row, column)?;
        let v2 = T2::collect(row, column)?;
        let v3 = T3::collect(row, column)?;
        let v4 = T4::collect(row, column)?;
        let v5 = T5::collect(row, column)?;
        Ok((v0, v1, v2, v3, v4, v5))
    }

    fn step_and_collect(retcode: i32, row: &Row) -> (outcome: Result<
        Result<Self, RsqliteError>,
        Request,
    >) {
        if retcode == SQLITE_ROW {
            let mut column: i32 = 0;
            let value = Self::collect(row, &mut column)?;
            Ok(Ok(value))
        } else {
            Ok(Err(missing_row(retcode)))
        }
    }

    fn columns_needed() -> (needed: i32) {
        let mut needed: i32 = T0::columns_needed();
        needed = add_columns(needed, T1::columns_needed());
        needed = add_columns(needed, T2::columns_needed());
        needed = add_columns(needed, T3::columns_needed());
        needed = add_columns(needed, T4::columns_needed());
        needed = add_columns(needed, T5::columns_needed());
        needed
    }
}

impl<
    T0: Collectable, T1: Collectable, T2: Collectable, T3: Collectable, T4: Collectable,
    T5: Collectable, T6: Collectable,
> Collectable for (T0, T1, T2, T3, T4, T5, T6) {
    type Model = (T0::Model, T1::Model, T2::Model, T3::Model, T4::Model, T5::Model, T6::Model);

    open spec fn model(&self) -> (
        T0::Model, T1::Model, T2::Model, T3::Model, T4::Model, T5::Model, T6::Model,
    ) {
        (
            self.0.model(), self.1.model(), self.2.model(), self.3.model(), self.4.model(),
            self.5.model(), self.6.model(),
        )
    }

    open spec fn columns() -> nat {
        T0::columns() + T1::columns() + T2::columns() + T3::columns() + T4::columns()
            + T5::columns() + T6::columns()
    }

    open spec fn absent() -> Option<(
        T0::Model, T1::Model, T2::Model, T3::Model, T4::Model, T5::Model, T6::Model,
    )> {
        None
    }

    open spec fn read(row: RowView, column: int) -> Read<(
        T0::Model, T1::Model, T2::Model, T3::Model, T4::Model, T5::Model, T6::Model,
    )> {
        let r0 = T0::read(row, column);
        let r1 = T1::read(row, r0->next);
        let r2 = T2::read(row, r1->next);
        let r3 = T3::read(row, r2->next);
        let r4 = T4::read(row, r3->next);
        let r5 = T5::read(row, r4->next);
        let r6 = T6::read(row, r5->next);
        if r0 is Need {
            Read::Need(r0->Need_0)
        } else if r1 is Need {
            Read::Need(r1->Need_0)
        } else if r2 is Need {
            Read::Need(r2->Need_0)
        } else if r3 is Need {
            Read::Need(r3->Need_0)
        } else if r4 is Need {
            Read::Need(r4->Need_0)
        } else if r5 is Need {
            Read::Need(r5->Need_0)
        } else if r6 is Need {
            Read::Need(r6->Need_0)
        } else {
            Read::Got {
                value: (
                    r0->value, r1->value, r2->value, r3->value, r4->value, r5->value, r6->value,
                ),
                next: r6->next,
            }
        }
    }

    fn collect(row: &Row, column: &mut i32) -> (outcome: Result<Self, Request>) {
        let v0 = T0::collect(row, column)?;
        let v1 = T1::collect(row, column)?;
        let v2 = T2::collect(row, column)?;
        let v3 = T3::collect(row, column)?;
        let v4 = T4::collect(row, column)?;
        let v5 = T5::collect(row, column)?;
        let v6 = T6::collect(row, column)?;
        Ok((v0, v1, v2, v3, v4, v5, v6))
    }

    fn step_and_collect(retcode: i32, row: &Row) -> (outcome: Result<
        Result<Self, RsqliteError>,
        Request,
    >) {
        if retcode == SQLITE_ROW {
            let mut column: i32 = 0;
            let value = Self::collect(row, &mut column)?;
            Ok(Ok(value))
        } else {
            Ok(Err(missing_row(retcode)))
        }
    }

    fn columns_needed() -> (needed: i32) {
        let mut needed: i32 = T0::columns_needed();
        needed = add_columns(needed, T1::columns_needed());
        needed = add_columns(needed, T2::columns_needed());
        needed = add_columns(needed, T3::columns_needed());
        needed = add_columns(needed, T4::columns_needed());
        needed = add_columns(needed, T5::columns_needed());
        needed = add_columns(needed, T6::columns_needed());
        needed
    }
}

impl<
    T0: Collectable, T1: Collectable, T2: Collectable, T3: Collectable, T4: Collectable,
    T5: Collectable, T6: Collectable, T7: Collectable,
> Collectable for (T0, T1, T2, T3, T4, T5, T6, T7) {
    type Model = (
        T0::Model, T1::Model, T2::Model, T3::Model, T4::Model, T5::Model, T6::Model, T7::Model,
    );

    open spec fn model(&self) -> (
        T0::Model, T1::Model, T2::Model, T3::Model, T4::Model, T5::Model, T6::Model, T7::Model,
    ) {
        (
            self.0.model(), self.1.model(), self.2.model(), self.3.model(), self.4.model(),
            self.5.model(), self.6.model(), self.7.model(),
        )
    }

    open spec fn columns() -> nat {
        T0::columns() + T1::columns() + T2::columns() + T3::columns() + T4::columns()
            + T5::columns() + T6::columns() + T7::columns()
    }

    open spec fn absent() -> Option<(
        T0::Model, T1::Model, T2::Model, T3::Model, T4::Model, T5::Model, T6::Model, T7::Model,
    )> {
        None
    }

    open spec fn read(row: RowView, column: int) -> Read<(
        T0::Model, T1::Model, T2::Model, T3::Model, T4::Model, T5::Model, T6::Model, T7::Model,
    )> {
        let r0 = T0::read(row, column);
        let r1 = T1::read(row, r0->next);
        let r2 = T2::read(row, r1->next);
        let r3 = T3::read(row, r2->next);
        let r4 = T4::read(row, r3->next);
        let r5 = T5::read(row, r4->next);
        let r6 = T6::read(row, r5->next);
        let r7 = T7::read(row, r6->next);
        if r0 is Need {
            Read::Need(r0->Need_0)
        } else if r1 is Need {
            Read::Need(r1->Need_0)
        } else if r2 is Need {
            Read::Need(r2->Need_0)
        } else if r3 is Need {
            Read::Need(r3->Need_0)
        } else if r4 is Need {
            Read::Need(r4->Need_0)
        } else if r5 is Need {
            Read::Need(r5->Need_0)
        } else if r6 is Need {
            Read::Need(r6->Need_0)
        } else if r7 is Need {
            Read::Need(r7->Need_0)
        } else {
            Read::Got {
                value: (
                    r0->value, r1->value, r2->value, r3->value, r4->value, r5->value, r6->value,
                    r7->value,
                ),
                next: r7->next,
            }
        }
    }

    fn collect(row: &Row, column: &mut i32) -> (outcome: Result<Self, Request>) {
        let v0 = T0::collect(row, column)?;
        let v1 = T1::collect(row, column)?;
        let v2 = T2::collect(row, column)?;
        let v3 = T3::collect(row, column)?;
        let v4 = T4::collect(row, column)?;
        let v5 = T5::collect(row, column)?;
        let v6 = T6::collect(row, column)?;
        let v7 = T7::collect(row, column)?;
        Ok((v0, v1, v2, v3, v4, v5, v6, v7))
    }

    fn step_and_collect(retcode: i32, row: &Row) -> (outcome: Result<
        Result<Self, RsqliteError>,
        Request,
    >) {
        if retcode == SQLITE_ROW {
            let mut column: i32 = 0;
            let value = Self::collect(row, &mut column)?;
            Ok(Ok(value))
        } else {
            Ok(Err(missing_row(retcode)))
        }
    }

    fn columns_needed() -> (needed: i32) {
        let mut needed: i32 = T0::columns_needed();
        needed = add_columns(needed, T1::columns_needed());
        needed = add_columns(needed, T2::columns_needed());
        needed = add_columns(needed, T3::columns_needed());
        needed = add_columns(needed, T4::columns_needed());
        needed = add_columns(needed, T5::columns_needed());
        needed = add_columns(needed, T6::columns_needed());
        needed = add_columns(needed, T7::columns_needed());
        needed
    }
}

impl<
    T0: Collectable, T1: Collectable, T2: Collectable, T3: Collectable, T4: Collectable,
    T5: Collectable, T6: Collectable, T7: Collectable, T8: Collectable,
> Collectable for (T0, T1, T2, T3, T4, T5, T6, T7, T8) {
    type Model = (
        T0::Model, T1::Model, T2::Model, T3::Model, T4::Model, T5::Model, T6::Model, T7::Model,
        T8::Model,
    );

    open spec fn model(&self) -> (
        T0::Model, T1::Model, T2::Model, T3::Model, T4::Model, T5::Model, T6::Model, T7::Model,
        T8::Model,
    ) {
        (
            self.0.model(), self.1.model(), self.2.model(), self.3.model(), self.4.model(),
            self.5.model(), self.6.model(), self.7.model(), self.8.model(),
        )
    }

    open spec fn columns() -> nat {
        T0::columns() + T1::columns() + T2::columns() + T3::columns() + T4::columns()
            + T5::columns() + T6::columns() + T7::columns() + T8::columns()
    }

    open spec fn absent() -> Option<(
        T0::Model, T1::Model, T2::Model, T3::Model, T4::Model, T5::Model, T6::Model, T7::Model,
        T8::Model,
    )> {
        None
    }

    open spec fn read(row: RowView, column: int) -> Read<(
        T0::Model, T1::Model, T2::Model, T3::Model, T4::Model, T5::Model, T6::Model, T7::Model,
        T8::Model,
    )> {
        let r0 = T0::read(row, column);
        let r1 = T1::read(row, r0->next);
        let r2 = T2::read(row, r1->next);
        let r3 = T3::read(row, r2->next);
        let r4 = T4::read(row, r3->next);
        let r5 = T5::read(row, r4->next);
        let r6 = T6::read(row, r5->next);
        let r7 = T7::read(row, r6->next);
        let r8 = T8::read(row, r7->next);
        if r0 is Need {
            Read::Need(r0->Need_0)
        } else if r1 is Need {
            Read::Need(r1->Need_0)
        } else if r2 is Need {
            Read::Need(r2->Need_0)
        } else if r3 is Need {
            Read::Need(r3->Need_0)
        } else if r4 is Need {
            Read::Need(r4->Need_0)
        } else if r5 is Need {
            Read::Need(r5->Need_0)
        } else if r6 is Need {
            Read::Need(r6->Need_0)
        } else if r7 is Need {
            Read::Need(r7->Need_0)
        } else if r8 is Need {
            Read::Need(r8->Need_0)
        } else {
            Read::Got {
                value: (
                    r0->value, r1->value, r2->value, r3->value, r4->value, r5->value, r6->value,
                    r7->value, r8->value,
                ),
                next: r8->next,
            }
        }
    }

    fn collect(row: &Row, column: &mut i32) -> (outcome: Result<Self, Request>) {
        let v0 = T0::collect(row, column)?;
        let v1 = T1::collect(row, column)?;
        let v2 = T2::collect(row, column)?;
        let v3 = T3::collect(row, column)?;
        let v4 = T4::collect(row, column)?;
        let v5 = T5::collect(row, column)?;
        let v6 = T6::collect(row, column)?;
        let v7 = T7::collect(row, column)?;
        let v8 = T8::collect(row, column)?;
        Ok((v0, v1, v2, v3, v4, v5, v6, v7, v8))
    }

    fn step_and_collect(retcode: i32, row: &Row) -> (outcome: Result<
        Result<Self, RsqliteError>,
        Request,
    >) {
        if retcode == SQLITE_ROW {
            let mut column: i32 = 0;
            let value = Self::collect(row, &mut column)?;
            Ok(Ok(value))
        } else {
            Ok(Err(missing_row(retcode)))
        }
    }

    fn columns_needed() -> (needed: i32) {
        let mut needed: i32 = T0::columns_needed();
        needed = add_columns(needed, T1::columns_needed());
        needed = add_columns(needed, T2::columns_needed());
        needed = add_columns(needed, T3::columns_needed());
        needed = add_columns(needed, T4::columns_needed());
        needed = add_columns(needed, T5::columns_needed());
        needed = add_columns(needed, T6::columns_needed());
        needed = add_columns(needed, T7::columns_needed());
        needed = add_columns(needed, T8::columns_needed());
        needed
    }
}

impl<
    T0: Collectable, T1: Collectable, T2: Collectable, T3: Collectable, T4: Collectable,
    T5: Collectable, T6: Collectable, T7: Collectable, T8: Collectable, T9: Collectable,
> Collectable for (T0, T1, T2, T3, T4, T5, T6, T7, T8, T9) {
    type Model = (
        T0::Model, T1::Model, T2::Model, T3::Model, T4::Model, T5::Model, T6::Model, T7::Model,
        T8::Model, T9::Model,
    );

    open spec fn model(&self) -> (
        T0::Model, T1::Model, T2::Model, T3::Model, T4::Model, T5::Model, T6::Model, T7::Model,
        T8::Model, T9::Model,
    ) {
        (
            self.0.model(), self.1.model(), self.2.model(), self.3.model(), self.4.model(),
            self.5.model(), self.6.model(), self.7.model(), self.8.model(), self.9.model(),
        )
    }

    open spec fn columns() -> nat {
        T0::columns() + T1::columns() + T2::columns() + T3::columns() + T4::columns()
            + T5::columns() + T6::columns() + T7::columns() + T8::columns() + T9::columns()
    }

    open spec fn absent() -> Option<(
        T0::Model, T1::Model, T2::Model, T3::Model, T4::Model, T5::Model, T6::Model, T7::Model,
        T8::Model, T9::Model,
    )> {
        None
    }

    open spec fn read(row: RowView, column: int) -> Read<(
        T0::Model, T1::Model, T2::Model, T3::Model, T4::Model, T5::Model, T6::Model, T7::Model,
        T8::Model, T9::Model,
    )> {
        let r0 = T0::read(row, column);
        let r1 = T1::read(row, r0->next);
        let r2 = T2::read(row, r1->next);
        let r3 = T3::read(row, r2->next);
        let r4 = T4::read(row, r3->next);
        let r5 = T5::read(row, r4->next);
        let r6 = T6::read(row, r5->next);
        let r7 = T7::read(row, r6->next);
        let r8 = T8::read(row, r7->next);
        let r9 = T9::read(row, r8->next);
        if r0 is Need {
            Read::Need(r0->Need_0)
        } else if r1 is Need {
            Read::Need(r1->Need_0)
        } else if r2 is Need {
            Read::Need(r2->Need_0)
        } else if r3 is Need {
            Read::Need(r3->Need_0)
        } else if r4 is Need {
            Read::Need(r4->Need_0)
        } else if r5 is Need {
            Read::Need(r5->Need_0)
        } else if r6 is Need {
            Read::Need(r6->Need_0)
        } else if r7 is Need {
            Read::Need(r7->Need_0)
        } else if r8 is Need {
            Read::Need(r8->Need_0)
        } else if r9 is Need {
            Read::Need(r9->Need_0)
        } else {
            Read::Got {
                value: (
                    r0->value, r1->value, r2->value, r3->value, r4->value, r5->value, r6->value,
                    r7->value, r8->value, r9->value,
                ),
                next: r9->next,
            }
        }
    }

    fn collect(row: &Row, column: &mut i32) -> (outcome: Result<Self, Request>) {
        let v0 = T0::collect(row, column)?;
        let v1 = T1::collect(row, column)?;
        let v2 = T2::collect(row, column)?;
        let v3 = T3::collect(row, column)?;
        let v4 = T4::collect(row, column)?;
        let v5 = T5::collect(row, column)?;
        let v6 = T6::collect(row, column)?;
        let v7 = T7::collect(row, column)?;
        let v8 = T8::collect(row, column)?;
        let v9 = T9::collect(row, column)?;
        Ok((v0, v1, v2, v3, v4, v5, v6, v7, v8, v9))
    }

    fn step_and_collect(retcode: i32, row: &Row) -> (outcome: Result<
        Result<Self, RsqliteError>,
        Request,
    >) {
        if retcode == SQLITE_ROW {
            let mut column: i32 = 0;
            let value = Self::collect(row, &mut column)?;
            Ok(Ok(value))
        } else {
            Ok(Err(missing_row(retcode)))
        }
    }

    fn columns_needed() -> (needed: i32) {
        let mut needed: i32 = T0::columns_needed();
        needed = add_columns(needed, T1::columns_needed());
        needed = add_columns(needed, T2::columns_needed());
        needed = add_columns(needed, T3::columns_needed());
        needed = add_columns(needed, T4::columns_needed());
        needed = add_columns(needed, T5::columns_needed());
        needed = add_columns(needed, T6::columns_needed());
        needed = add_columns(needed, T7::columns_needed());
        needed = add_columns(needed, T8::columns_needed());
        needed = add_columns(needed, T9::columns_needed());
        needed
    }
}

impl<
    T0: Collectable, T1: Collectable, T2: Collectable, T3: Collectable, T4: Collectable,
    T5: Collectable, T6: Collectable, T7: Collectable, T8: Collectable, T9: Collectable,
    T10: Collectable,
> Collectable for (T0, T1, T2, T3, T4, T5, T6, T7, T8, T9, T10) {
    type Model = (
        T0::Model, T1::Model, T2::Model, T3::Model, T4::Model, T5::Model, T6::Model, T7::Model,
        T8::Model, T9::Model, T10::Model,
    );

    open spec fn model(&self) -> (
        T0::Model, T1::Model, T2::Model, T3::Model, T4::Model, T5::Model, T6::Model, T7::Model,
        T8::Model, T9::Model, T10::Model,
    ) {
        (
            self.0.model(), self.1.model(), self.2.model(), self.3.model(), self.4.model(),
            self.5.model(), self.6.model(), self.7.model(), self.8.model(), self.9.model(),
            self.10.model(),
        )
    }

    open spec fn columns() -> nat {
        T0::columns() + T1::columns() + T2::columns() + T3::columns() + T4::columns()
            + T5::columns() + T6::columns() + T7::columns() + T8::columns() + T9::columns()
            + T10::columns()
    }

    open spec fn absent() -> Option<(
        T0::Model, T1::Model, T2::Model, T3::Model, T4::Model, T5::Model, T6::Model, T7::Model,
        T8::Model, T9::Model, T10::Model,
    )> {
        None
    }

    open spec fn read(row: RowView, column: int) -> Read<(
        T0::Model, T1::Model, T2::Model, T3::Model, T4::Model, T5::Model, T6::Model, T7::Model,
        T8::Model, T9::Model, T10::Model,
    )> {
        let r0 = T0::read(row, column);
        let r1 = T1::read(row, r0->next);
        let r2 = T2::read(row, r1->next);
        let r3 = T3::read(row, r2->next);
        let r4 = T4::read(row, r3->next);
        let r5 = T5::read(row, r4->next);
        let r6 = T6::read(row, r5->next);
        let r7 = T7::read(row, r6->next);
        let r8 = T8::read(row, r7->next);
        let r9 = T9::read(row, r8->next);
        let r10 = T10::read(row, r9->next);
        if r0 is Need {
            Read::Need(r0->Need_0)
        } else if r1 is Need {
            Read::Need(r1->Need_0)
        } else if r2 is Need {
            Read::Need(r2->Need_0)
        } else if r3 is Need {
            Read::Need(r3->Need_0)
        } else if r4 is Need {
            Read::Need(r4->Need_0)
        } else if r5 is Need {
            Read::Need(r5->Need_0)
        } else if r6 is Need {
            Read::Need(r6->Need_0)
        } else if r7 is Need {
            Read::Need(r7->Need_0)
        } else if r8 is Need {
            Read::Need(r8->Need_0)
        } else if r9 is Need {
            Read::Need(r9->Need_0)
        } else if r10 is Need {
            Read::Need(r10->Need_0)
        } else {
            Read::Got {
                value: (
                    r0->value, r1->value, r2->value, r3->value, r4->value, r5->value, r6->value,
                    r7->value, r8->value, r9->value, r10->value,
                ),
                next: r10->next,
            }
        }
    }

    fn collect(row: &Row, column: &mut i32) -> (outcome: Result<Self, Request>) {
        let v0 = T0::collect(row, column)?;
        let v1 = T1::collect(row, column)?;
        let v2 = T2::collect(row, column)?;
        let v3 = T3::collect(row, column)?;
        let v4 = T4::collect(row, column)?;
        let v5 = T5::collect(row, column)?;
        let v6 = T6::collect(row, column)?;
        let v7 = T7::collect(row, column)?;
        let v8 = T8::collect(row, column)?;
        let v9 = T9::collect(row, column)?;
        let v10 = T10::collect(row, column)?;
        Ok((v0, v1, v2, v3, v4, v5, v6, v7, v8, v9, v10))
    }

    fn step_and_collect(retcode: i32, row: &Row) -> (outcome: Result<
        Result<Self, RsqliteError>,
        Request,
    >) {
        if retcode == SQLITE_ROW {
            let mut column: i32 = 0;
            let value = Self::collect(row, &mut column)?;
            Ok(Ok(value))
        } else {
            Ok(Err(missing_row(retcode)))
        }
    }

    fn columns_needed() -> (needed: i32) {
        let mut needed: i32 = T0::columns_needed();
        needed = add_columns(needed, T1::columns_needed());
        needed = add_columns(needed, T2::columns_needed());
        needed = add_columns(needed, T3::columns_needed());
        needed = add_columns(needed, T4::columns_needed());
        needed = add_columns(needed, T5::columns_needed());
        needed = add_columns(needed, T6::columns_needed());
        needed = add_columns(needed, T7::columns_needed());
        needed = add_columns(needed, T8::columns_needed());
        needed = add_columns(needed, T9::columns_needed());
        needed = add_columns(needed, T10::columns_needed());
        needed
    }
}

impl<
    T0: Collectable, T1: Collectable, T2: Collectable, T3: Collectable, T4: Collectable,
    T5: Collectable, T6: Collectable, T7: Collectable, T8: Collectable, T9: Collectable,
    T10: Collectable, T11: Collectable,
> Collectable for (T0, T1, T2, T3, T4, T5, T6, T7, T8, T9, T10, T11) {
    type Model = (
        T0::Model, T1::Model, T2::Model, T3::Model, T4::Model, T5::Model, T6::Model, T7::Model,
        T8::Model, T9::Model, T10::Model, T11::Model,
    );

    open spec fn model(&self) -> (
        T0::Model, T1::Model, T2::Model, T3::Model, T4::Model, T5::Model, T6::Model, T7::Model,
        T8::Model, T9::Model, T10::Model, T11::Model,
    ) {
        (
            self.0.model(), self.1.model(), self.2.model(), self.3.model(), self.4.model(),
            self.5.model(), self.6.model(), self.7.model(), self.8.model(), self.9.model(),
            self.10.model(), self.11.model(),
        )
    }

    open spec fn columns() -> nat {
        T0::columns() + T1::columns() + T2::columns() + T3::columns() + T4::columns()
            + T5::columns() + T6::columns() + T7::columns() + T8::columns() + T9::columns()
            + T10::columns() + T11::columns()
    }

    open spec fn absent() -> Option<(
        T0::Model, T1::Model, T2::Model, T3::Model, T4::Model, T5::Model, T6::Model, T7::Model,
        T8::Model, T9::Model, T10::Model, T11::Model,
    )> {
        None
    }

    open spec fn read(row: RowView, column: int) -> Read<(
        T0::Model, T1::Model, T2::Model, T3::Model, T4::Model, T5::Model, T6::Model, T7::Model,
        T8::Model, T9::Model, T10::Model, T11::Model,
    )> {
        let r0 = T0::read(row, column);
        let r1 = T1::read(row, r0->next);
        let r2 = T2::read(row, r1->next);
        let r3 = T3::read(row, r2->next);
        let r4 = T4::read(row, r3->next);
        let r5 = T5::read(row, r4->next);
        let r6 = T6::read(row, r5->next);
        let r7 = T7::read(row, r6->next);
        let r8 = T8::read(row, r7->next);
        let r9 = T9::read(row, r8->next);
        let r10 = T10::read(row, r9->next);
        let r11 = T11::read(row, r10->next);
        if r0 is Need {
            Read::Need(r0->Need_0)
        } else if r1 is Need {
            Read::Need(r1->Need_0)
        } else if r2 is Need {
            Read::Need(r2->Need_0)
        } else if r3 is Need {
            Read::Need(r3->Need_0)
        } else if r4 is Need {
            Read::Need(r4->Need_0)
        } else if r5 is Need {
            Read::Need(r5->Need_0)
        } else if r6 is Need {
            Read::Need(r6->Need_0)
        } else if r7 is Need {
            Read::Need(r7->Need_0)
        } else if r8 is Need {
            Read::Need(r8->Need_0)
        } else if r9 is Need {
            Read::Need(r9->Need_0)
        } else if r10 is Need {
            Read::Need(r10->Need_0)
        } else if r11 is Need {
            Read::Need(r11->Need_0)
        } else {
            Read::Got {
                value: (
                    r0->value, r1->value, r2->value, r3->value, r4->value, r5->value, r6->value,
                    r7->value, r8->value, r9->value, r10->value, r11->value,
                ),
                next: r11->next,
            }
        }
    }

    fn collect(row: &Row, column: &mut i32) -> (outcome: Result<Self, Request>) {
        let v0 = T0::collect(row, column)?;
        let v1 = T1::collect(row, column)?;
        let v2 = T2::collect(row, column)?;
        let v3 = T3::collect(row, column)?;
        let v4 = T4::collect(row, column)?;
        let v5 = T5::collect(row, column)?;
        let v6 = T6::collect(row, column)?;
        let v7 = T7::collect(row, column)?;
        let v8 = T8::collect(row, column)?;
        let v9 = T9::collect(row, column)?;
        let v10 = T10::collect(row, column)?;
        let v11 = T11::collect(row, column)?;
        Ok((v0, v1, v2, v3, v4, v5, v6, v7, v8, v9, v10, v11))
    }

    fn step_and_collect(retcode: i32, row: &Row) -> (outcome: Result<
        Result<Self, RsqliteError>,
        Request,
    >) {
        if retcode == SQLITE_ROW {
            let mut column: i32 = 0;
            let value = Self::collect(row, &mut column)?;
            Ok(Ok(value))
        } else {
            Ok(Err(missing_row(retcode)))
        }
    }

    fn columns_needed() -> (needed: i32) {
        let mut needed: i32 = T0::columns_needed();
        needed = add_columns(needed, T1::columns_needed());
        needed = add_columns(needed, T2::columns_needed());
        needed = add_columns(needed, T3::columns_needed());
        needed = add_columns(needed, T4::columns_needed());
        needed = add_columns(needed, T5::columns_needed());
        needed = add_columns(needed, T6::columns_needed());
        needed = add_columns(needed, T7::columns_needed());
        needed = add_columns(needed, T8::columns_needed());
        needed = add_columns(needed, T9::columns_needed());
        needed = add_columns(needed, T10::columns_needed());
        needed = add_columns(needed, T11::columns_needed());
        needed
    }
}

impl<
    T0: Collectable, T1: Collectable, T2: Collectable, T3: Collectable, T4: Collectable,
    T5: Collectable, T6: Collectable, T7: Collectable, T8: Collectable, T9: Collectable,
    T10: Collectable, T11: Collectable, T12: Collectable,
> Collectable for (T0, T1, T2, T3, T4, T5, T6, T7, T8, T9, T10, T11, T12) {
    type Model = (
        T0::Model, T1::Model, T2::Model, T3::Model, T4::Model, T5::Model, T6::Model, T7::Model,
        T8::Model, T9::Model, T10::Model, T11::Model, T12::Model,
    );

    open spec fn model(&self) -> (
        T0::Model, T1::Model, T2::Model, T3::Model, T4::Model, T5::Model, T6::Model, T7::Model,
        T8::Model, T9::Model, T10::Model, T11::Model, T12::Model,
    ) {
        (
            self.0.model(), self.1.model(), self.2.model(), self.3.model(), self.4.model(),
            self.5.model(), self.6.model(), self.7.model(), self.8.model(), self.9.model(),
            self.10.model(), self.11.model(), self.12.model(),
        )
    }

    open spec fn columns() -> nat {
        T0::columns() + T1::columns() + T2::columns() + T3::columns() + T4::columns()
            + T5::columns() + T6::columns() + T7::columns() + T8::columns() + T9::columns()
            + T10::columns() + T11::columns() + T12::columns()
    }

    open spec fn absent() -> Option<(
        T0::Model, T1::Model, T2::Model, T3::Model, T4::Model, T5::Model, T6::Model, T7::Model,
        T8::Model, T9::Model, T10::Model, T11::Model, T12::Model,
    )> {
        None
    }

    open spec fn read(row: RowView, column: int) -> Read<(
        T0::Model, T1::Model, T2::Model, T3::Model, T4::Model, T5::Model, T6::Model, T7::Model,
        T8::Model, T9::Model, T10::Model, T11::Model, T12::Model,
    )> {
        let r0 = T0::read(row, column);
        let r1 = T1::read(row, r0->next);
        let r2 = T2::read(row, r1->next);
        let r3 = T3::read(row, r2->next);
        let r4 = T4::read(row, r3->next);
        let r5 = T5::read(row, r4->next);
        let r6 = T6::read(row, r5->next);
        let r7 = T7::read(row, r6->next);
        let r8 = T8::read(row, r7->next);
        let r9 = T9::read(row, r8->next);
        let r10 = T10::read(row, r9->next);
        let r11 = T11::read(row, r10->next);
        let r12 = T12::read(row, r11->next);
        if r0 is Need {
            Read::Need(r0->Need_0)
        } else if r1 is Need {
            Read::Need(r1->Need_0)
        } else if r2 is Need {
            Read::Need(r2->Need_0)
        } else if r3 is Need {
            Read::Need(r3->Need_0)
        } else if r4 is Need {
            Read::Need(r4->Need_0)
        } else if r5 is Need {
            Read::Need(r5->Need_0)
        } else if r6 is Need {
            Read::Need(r6->Need_0)
        } else if r7 is Need {
            Read::Need(r7->Need_0)
        } else if r8 is Need {
            Read::Need(r8->Need_0)
        } else if r9 is Need {
            Read::Need(r9->Need_0)
        } else if r10 is Need {
            Read::Need(r10->Need_0)
        } else if r11 is Need {
            Read::Need(r11->Need_0)
        } else if r12 is Need {
            Read::Need(r12->Need_0)
        } else {
            Read::Got {
                value: (
                    r0->value, r1->value, r2->value, r3->value, r4->value, r5->value, r6->value,
                    r7->value, r8->value, r9->value, r10->value, r11->value, r12->value,
                ),
                next: r12->next,
            }
        }
    }

    fn collect(row: &Row, column: &mut i32) -> (outcome: Result<Self, Request>) {
        let v0 = T0::collect(row, column)?;
        let v1 = T1::collect(row, column)?;
        let v2 = T2::collect(row, column)?;
        let v3 = T3::collect(row, column)?;
        let v4 = T4::collect(row, column)?;
        let v5 = T5::collect(row, column)?;
        let v6 = T6::collect(row, column)?;
        let v7 = T7::collect(row, column)?;
        let v8 = T8::collect(row, column)?;
        let v9 = T9::collect(row, column)?;
        let v10 = T10::collect(row, column)?;
        let v11 = T11::collect(row, column)?;
        let v12 = T12::collect(row, column)?;
        Ok((v0, v1, v2, v3, v4, v5, v6, v7, v8, v9, v10, v11, v12))
    }

    fn step_and_collect(retcode: i32, row: &Row) -> (outcome: Result<
        Result<Self, RsqliteError>,
        Request,
    >) {
        if retcode == SQLITE_ROW {
            let mut column: i32 = 0;
            let value = Self::collect(row, &mut column)?;
            Ok(Ok(value))
        } else {
            Ok(Err(missing_row(retcode)))
        }
    }

    fn columns_needed() -> (needed: i32) {
        let mut needed: i32 = T0::columns_needed();
        needed = add_columns(needed, T1::columns_needed());
        needed = add_columns(needed, T2::columns_needed());
        needed = add_columns(needed, T3::columns_needed());
        needed = add_columns(needed, T4::columns_needed());
        needed = add_columns(needed, T5::columns_needed());
        needed = add_columns(needed, T6::columns_needed());
        needed = add_columns(needed, T7::columns_needed());
        needed = add_columns(needed, T8::columns_needed());
        needed = add_columns(needed, T9::columns_needed());
        needed = add_columns(needed, T10::columns_needed());
        needed = add_columns(needed, T11::columns_needed());
        needed = add_columns(needed, T12::columns_needed());
        needed
    }
}

} // verus!
