//! Tuples that are bound and collected again.
//!
//! The columns are collected in the order in which the elements of the tuple
//! are declared, which is the order in which the parameters are bound. So
//! where each element, bound and collected again, is the same, the tuple is.

use vstd::prelude::*;
use crate::bindable::Bindable;
use crate::collectable::{Collectable, Read};
use crate::laws::{echoes, echoes_both_parts, restores};
use crate::row::RowView;

verus! {

/// A tuple of one whose elements are each restored is restored, element
/// by element in the order of declaration.
pub proof fn round_trip_of_one<B0: Bindable, C0: Collectable>(b0: B0, m0: C0::Model)
    requires
        restores::<C0>(b0.params(), m0),
    ensures
        restores::<(C0,)>((b0,).params(), (m0,)),
{
    let values = (b0,).params();
    assert forall|row: RowView, column: int|
        echoes(row, column, values) && column + values.len() <= i32::MAX implies #[trigger]
    <(C0,)>::read(row, column) == (Read::Got { value: (m0,), next: column + values.len() }) by {
        let c1 = column + b0.params().len();
        assert(C0::read(row, column) == (Read::Got { value: m0, next: c1 }));
    }
}

/// A tuple of two whose elements are each restored is restored, element
/// by element in the order of declaration.
pub proof fn round_trip_of_two<B0: Bindable, B1: Bindable, C0: Collectable, C1: Collectable>(
    b0: B0, b1: B1, m0: C0::Model, m1: C1::Model,
)
    requires
        restores::<C0>(b0.params(), m0),
        restores::<C1>(b1.params(), m1),
    ensures
        restores::<(C0, C1)>((b0, b1).params(), (m0, m1)),
{
    let values = (b0, b1).params();
    assert forall|row: RowView, column: int|
        echoes(row, column, values) && column + values.len() <= i32::MAX implies #[trigger]
    <(C0, C1)>::read(row, column) == (Read::Got {
        value: (m0, m1),
        next: column + values.len(),
    }) by {
        echoes_both_parts(row, column, b0.params(), b1.params());
        let c1 = column + b0.params().len();
        let c2 = c1 + b1.params().len();
        assert(C0::read(row, column) == (Read::Got { value: m0, next: c1 }));
        assert(C1::read(row, c1) == (Read::Got { value: m1, next: c2 }));
    }
}

/// A tuple of three whose elements are each restored is restored, element
/// by element in the order of declaration.
pub proof fn round_trip_of_three<
    B0: Bindable, B1: Bindable, B2: Bindable, C0: Collectable, C1: Collectable, C2: Collectable,
>(b0: B0, b1: B1, b2: B2, m0: C0::Model, m1: C1::Model, m2: C2::Model)
    requires
        restores::<C0>(b0.params(), m0),
        restores::<C1>(b1.params(), m1),
        restores::<C2>(b2.params(), m2),
    ensures
        restores::<(C0, C1, C2)>((b0, b1, b2).params(), (m0, m1, m2)),
{
    let values = (b0, b1, b2).params();
    assert forall|row: RowView, column: int|
        echoes(row, column, values) && column + values.len() <= i32::MAX implies #[trigger]
    <(C0, C1, C2)>::read(row, column) == (Read::Got {
        value: (m0, m1, m2),
        next: column + values.len(),
    }) by {
        echoes_both_parts(row, column, b0.params() + b1.params(), b2.params());
        echoes_both_parts(row, column, b0.params(), b1.params());
        let c1 = column + b0.params().len();
        let c2 = c1 + b1.params().len();
        let c3 = c2 + b2.params().len();
        assert(C0::read(row, column) == (Read::Got { value: m0, next: c1 }));
        assert(C1::read(row, c1) == (Read::Got { value: m1, next: c2 }));
        assert(C2::read(row, c2) == (Read::Got { value: m2, next: c3 }));
    }
}

/// A tuple of four whose elements are each restored is restored, element
/// by element in the order of declaration.
pub proof fn round_trip_of_four<
    B0: Bindable, B1: Bindable, B2: Bindable, B3: Bindable, C0: Collectable, C1: Collectable,
    C2: Collectable, C3: Collectable,
>(b0: B0, b1: B1, b2: B2, b3: B3, m0: C0::Model, m1: C1::Model, m2: C2::Model, m3: C3::Model)
    requires
        restores::<C0>(b0.params(), m0),
        restores::<C1>(b1.params(), m1),
        restores::<C2>(b2.params(), m2),
        restores::<C3>(b3.params(), m3),
    ensures
        restores::<(C0, C1, C2, C3)>((b0, b1, b2, b3).params(), (m0, m1, m2, m3)),
{
    let values = (b0, b1, b2, b3).params();
    assert forall|row: RowView, column: int|
        echoes(row, column, values) && column + values.len() <= i32::MAX implies #[trigger]
    <(C0, C1, C2, C3)>::read(row, column) == (Read::Got {
        value: (m0, m1, m2, m3),
        next: column + values.len(),
    }) by {
        echoes_both_parts(row, column, b0.params() + b1.params() + b2.params(), b3.params());
        echoes_both_parts(row, column, b0.params() + b1.params(), b2.params());
        echoes_both_parts(row, column, b0.params(), b1.params());
        let c1 = column + b0.params().len();
        let c2 = c1 + b1.params().len();
        let c3 = c2 + b2.params().len();
        let c4 = c3 + b3.params().len();
        assert(C0::read(row, column) == (Read::Got { value: m0, next: c1 }));
        assert(C1::read(row, c1) == (Read::Got { value: m1, next: c2 }));
        assert(C2::read(row, c2) == (Read::Got { value: m2, next: c3 }));
        assert(C3::read(row, c3) == (Read::Got { value: m3, next: c4 }));
    }
}

/// A tuple of five whose elements are each restored is restored, element
/// by element in the order of declaration.
pub proof fn round_trip_of_five<
    B0: Bindable, B1: Bindable, B2: Bindable, B3: Bindable, B4: Bindable, C0: Collectable,
    C1: Collectable, C2: Collectable, C3: Collectable, C4: Collectable,
>(
    b0: B0, b1: B1, b2: B2, b3: B3, b4: B4, m0: C0::Model, m1: C1::Model, m2: C2::Model,
    m3: C3::Model, m4: C4::Model,
)
    requires
        restores::<C0>(b0.params(), m0),
        restores::<C1>(b1.params(), m1),
        restores::<C2>(b2.params(), m2),
        restores::<C3>(b3.params(), m3),
        restores::<C4>(b4.params(), m4),
    ensures
        restores::<(C0, C1, C2, C3, C4)>((b0, b1, b2, b3, b4).params(), (m0, m1, m2, m3, m4)),
{
    let values = (b0, b1, b2, b3, b4).params();
    assert forall|row: RowView, column: int|
        echoes(row, column, values) && column + values.len() <= i32::MAX implies #[trigger]
    <(C0, C1, C2, C3, C4)>::read(row, column) == (Read::Got {
        value: (m0, m1, m2, m3, m4),
        next: column + values.len(),
    }) by {
        echoes_both_parts(
            row,
            column,
            b0.params() + b1.params() + b2.params() + b3.params(),
            b4.params(),
        );
        echoes_both_parts(row, column, b0.params() + b1.params() + b2.params(), b3.params());
        echoes_both_parts(row, column, b0.params() + b1.params(), b2.params());
        echoes_both_parts(row, column, b0.params(), b1.params());
        let c1 = column + b0.params().len();
        let c2 = c1 + b1.params().len();
        let c3 = c2 + b2.params().len();
        let c4 = c3 + b3.params().len();
        let c5 = c4 + b4.params().len();
        assert(C0::read(row, column) == (Read::Got { value: m0, next: c1 }));
        assert(C1::read(row, c1) == (Read::Got { value: m1, next: c2 }));
        assert(C2::read(row, c2) == (Read::Got { value: m2, next: c3 }));
        assert(C3::read(row, c3) == (Read::Got { value: m3, next: c4 }));
        assert(C4::read(row, c4) == (Read::Got { value: m4, next: c5 }));
    }
}

/// A tuple of six whose elements are each restored is restored, element
/// by element in the order of declaration.
pub proof fn round_trip_of_six<
    B0: Bindable, B1: Bindable, B2: Bindable, B3: Bindable, B4: Bindable, B5: Bindable,
    C0: Collectable, C1: Collectable, C2: Collectable, C3: Collectable, C4: Collectable,
    C5: Collectable,
>(
    b0: B0, b1: B1, b2: B2, b3: B3, b4: B4, b5: B5, m0: C0::Model, m1: C1::Model, m2: C2::Model,
    m3: C3::Model, m4: C4::Model, m5: C5::Model,
)
    requires
        restores::<C0>(b0.params(), m0),
        restores::<C1>(b1.params(), m1),
        restores::<C2>(b2.params(), m2),
        restores::<C3>(b3.params(), m3),
        restores::<C4>(b4.params(), m4),
        restores::<C5>(b5.params(), m5),
    ensures
        restores::<(C0, C1, C2, C3, C4, C5)>(
            (b0, b1, b2, b3, b4, b5).params(),
            (m0, m1, m2, m3, m4, m5),
        ),
{
    let values = (b0, b1, b2, b3, b4, b5).params();
    assert forall|row: RowView, column: int|
        echoes(row, column, values) && column + values.len() <= i32::MAX implies #[trigger]
    <(C0, C1, C2, C3, C4, C5)>::read(row, column) == (Read::Got {
        value: (m0, m1, m2, m3, m4, m5),
        next: column + values.len(),
    }) by {
        echoes_both_parts(
            row,
            column,
            b0.params() + b1.params() + b2.params() + b3.params() + b4.params(),
            b5.params(),
        );
        echoes_both_parts(
            row,
            column,
            b0.params() + b1.params() + b2.params() + b3.params(),
            b4.params(),
        );
        echoes_both_parts(row, column, b0.params() + b1.params() + b2.params(), b3.params());
        echoes_both_parts(row, column, b0.params() + b1.params(), b2.params());
        echoes_both_parts(row, column, b0.params(), b1.params());
        let c1 = column + b0.params().len();
        let c2 = c1 + b1.params().len();
        let c3 = c2 + b2.params().len();
        let c4 = c3 + b3.params().len();
        let c5 = c4 + b4.params().len();
        let c6 = c5 + b5.params().len();
        assert(C0::read(row, column) == (Read::Got { value: m0, next: c1 }));
        assert(C1::read(row, c1) == (Read::Got { value: m1, next: c2 }));
        assert(C2::read(row, c2) == (Read::Got { value: m2, next: c3 }));
        assert(C3::read(row, c3) == (Read::Got { value: m3, next: c4 }));
        assert(C4::read(row, c4) == (Read::Got { value: m4, next: c5 }));
        assert(C5::read(row, c5) == (Read::Got { value: m5, next: c6 }));
    }
}

/// A tuple of seven whose elements are each restored is restored, element
/// by element in the order of declaration.
pub proof fn round_trip_of_seven<
    B0: Bindable, B1: Bindable, B2: Bindable, B3: Bindable, B4: Bindable, B5: Bindable,
    B6: Bindable, C0: Collectable, C1: Collectable, C2: Collectable, C3: Collectable,
    C4: Collectable, C5: Collectable, C6: Collectable,
>(
    b0: B0, b1: B1, b2: B2, b3: B3, b4: B4, b5: B5, b6: B6, m0: C0::Model, m1: C1::Model,
    m2: C2::Model, m3: C3::Model, m4: C4::Model, m5: C5::Model, m6: C6::Model,
)
    requires
        restores::<C0>(b0.params(), m0),
        restores::<C1>(b1.params(), m1),
        restores::<C2>(b2.params(), m2),
        restores::<C3>(b3.params(), m3),
        restores::<C4>(b4.params(), m4),
        restores::<C5>(b5.params(), m5),
        restores::<C6>(b6.params(), m6),
    ensures
        restores::<(C0, C1, C2, C3, C4, C5, C6)>(
            (b0, b1, b2, b3, b4, b5, b6).params(),
            (m0, m1, m2, m3, m4, m5, m6),
        ),
{
    let values = (b0, b1, b2, b3, b4, b5, b6).params();
    assert forall|row: RowView, column: int|
        echoes(row, column, values) && column + values.len() <= i32::MAX implies #[trigger]
    <(C0, C1, C2, C3, C4, C5, C6)>::read(row, column) == (Read::Got {
        value: (m0, m1, m2, m3, m4, m5, m6),
        next: column + values.len(),
    }) by {
        echoes_both_parts(
            row,
            column,
            b0.params() + b1.params() + b2.params() + b3.params() + b4.params() + b5.params(),
            b6.params(),
        );
        echoes_both_parts(
            row,
            column,
            b0.params() + b1.params() + b2.params() + b3.params() + b4.params(),
            b5.params(),
        );
        echoes_both_parts(
            row,
            column,
            b0.params() + b1.params() + b2.params() + b3.params(),
            b4.params(),
        );
        echoes_both_parts(row, column, b0.params() + b1.params() + b2.params(), b3.params());
        echoes_both_parts(row, column, b0.params() + b1.params(), b2.params());
        echoes_both_parts(row, column, b0.params(), b1.params());
        let c1 = column + b0.params().len();
        let c2 = c1 + b1.params().len();
        let c3 = c2 + b2.params().len();
        let c4 = c3 + b3.params().len();
        let c5 = c4 + b4.params().len();
        let c6 = c5 + b5.params().len();
        let c7 = c6 + b6.params().len();
        assert(C0::read(row, column) == (Read::Got { value: m0, next: c1 }));
        assert(C1::read(row, c1) == (Read::Got { value: m1, next: c2 }));
        assert(C2::read(row, c2) == (Read::Got { value: m2, next: c3 }));
        assert(C3::read(row, c3) == (Read::Got { value: m3, next: c4 }));
        assert(C4::read(row, c4) == (Read::Got { value: m4, next: c5 }));
        assert(C5::read(row, c5) == (Read::Got { value: m5, next: c6 }));
        assert(C6::read(row, c6) == (Read::Got { value: m6, next: c7 }));
    }
}

/// A tuple of eight whose elements are each restored is restored, element
/// by element in the order of declaration.
pub proof fn round_trip_of_eight<
    B0: Bindable, B1: Bindable, B2: Bindable, B3: Bindable, B4: Bindable, B5: Bindable,
    B6: Bindable, B7: Bindable, C0: Collectable, C1: Collectable, C2: Collectable, C3: Collectable,
    C4: Collectable, C5: Collectable, C6: Collectable, C7: Collectable,
>(
    b0: B0, b1: B1, b2: B2, b3: B3, b4: B4, b5: B5, b6: B6, b7: B7, m0: C0::Model, m1: C1::Model,
    m2: C2::Model, m3: C3::Model, m4: C4::Model, m5: C5::Model, m6: C6::Model, m7: C7::Model,
)
    requires
        restores::<C0>(b0.params(), m0),
        restores::<C1>(b1.params(), m1),
        restores::<C2>(b2.params(), m2),
        restores::<C3>(b3.params(), m3),
        restores::<C4>(b4.params(), m4),
        restores::<C5>(b5.params(), m5),
        restores::<C6>(b6.params(), m6),
        restores::<C7>(b7.params(), m7),
    ensures
        restores::<(C0, C1, C2, C3, C4, C5, C6, C7)>(
            (b0, b1, b2, b3, b4, b5, b6, b7).params(),
            (m0, m1, m2, m3, m4, m5, m6, m7),
        ),
{
    let values = (b0, b1, b2, b3, b4, b5, b6, b7).params();
    assert forall|row: RowView, column: int|
        echoes(row, column, values) && column + values.len() <= i32::MAX implies #[trigger]
    <(C0, C1, C2, C3, C4, C5, C6, C7)>::read(row, column) == (Read::Got {
        value: (m0, m1, m2, m3, m4, m5, m6, m7),
        next: column + values.len(),
    }) by {
        echoes_both_parts(
            row,
            column,
            b0.params() + b1.params() + b2.params() + b3.params() + b4.params() + b5.params()
                + b6.params(),
            b7.params(),
        );
        echoes_both_parts(
            row,
            column,
            b0.params() + b1.params() + b2.params() + b3.params() + b4.params() + b5.params(),
            b6.params(),
        );
        echoes_both_parts(
            row,
            column,
            b0.params() + b1.params() + b2.params() + b3.params() + b4.params(),
            b5.params(),
        );
        echoes_both_parts(
            row,
            column,
            b0.params() + b1.params() + b2.params() + b3.params(),
            b4.params(),
        );
        echoes_both_parts(row, column, b0.params() + b1.params() + b2.params(), b3.params());
        echoes_both_parts(row, column, b0.params() + b1.params(), b2.params());
        echoes_both_parts(row, column, b0.params(), b1.params());
        let c1 = column + b0.params().len();
        let c2 = c1 + b1.params().len();
        let c3 = c2 + b2.params().len();
        let c4 = c3 + b3.params().len();
        let c5 = c4 + b4.params().len();
        let c6 = c5 + b5.params().len();
        let c7 = c6 + b6.params().len();
        let c8 = c7 + b7.params().len();
        assert(C0::read(row, column) == (Read::Got { value: m0, next: c1 }));
        assert(C1::read(row, c1) == (Read::Got { value: m1, next: c2 }));
        assert(C2::read(row, c2) == (Read::Got { value: m2, next: c3 }));
        assert(C3::read(row, c3) == (Read::Got { value: m3, next: c4 }));
        assert(C4::read(row, c4) == (Read::Got { value: m4, next: c5 }));
        assert(C5::read(row, c5) == (Read::Got { value: m5, next: c6 }));
        assert(C6::read(row, c6) == (Read::Got { value: m6, next: c7 }));
        assert(C7::read(row, c7) == (Read::Got { value: m7, next: c8 }));
    }
}

/// A tuple of nine whose elements are each restored is restored, element
/// by element in the order of declaration.
pub proof fn round_trip_of_nine<
    B0: Bindable, B1: Bindable, B2: Bindable, B3: Bindable, B4: Bindable, B5: Bindable,
    B6: Bindable, B7: Bindable, B8: Bindable, C0: Collectable, C1: Collectable, C2: Collectable,
    C3: Collectable, C4: Collectable, C5: Collectable, C6: Collectable, C7: Collectable,
    C8: Collectable,
>(
    b0: B0, b1: B1, b2: B2, b3: B3, b4: B4, b5: B5, b6: B6, b7: B7, b8: B8, m0: C0::Model,
    m1: C1::Model, m2: C2::Model, m3: C3::Model, m4: C4::Model, m5: C5::Model, m6: C6::Model,
    m7: C7::Model, m8: C8::Model,
)
    requires
        restores::<C0>(b0.params(), m0),
        restores::<C1>(b1.params(), m1),
        restores::<C2>(b2.params(), m2),
        restores::<C3>(b3.params(), m3),
        restores::<C4>(b4.params(), m4),
        restores::<C5>(b5.params(), m5),
        restores::<C6>(b6.params(), m6),
        restores::<C7>(b7.params(), m7),
        restores::<C8>(b8.params(), m8),
    ensures
        restores::<(C0, C1, C2, C3, C4, C5, C6, C7, C8)>(
            (b0, b1, b2, b3, b4, b5, b6, b7, b8).params(),
            (m0, m1, m2, m3, m4, m5, m6, m7, m8),
        ),
{
    let values = (b0, b1, b2, b3, b4, b5, b6, b7, b8).params();
    assert forall|row: RowView, column: int|
        echoes(row, column, values) && column + values.len() <= i32::MAX implies #[trigger]
    <(C0, C1, C2, C3, C4, C5, C6, C7, C8)>::read(row, column) == (Read::Got {
        value: (m0, m1, m2, m3, m4, m5, m6, m7, m8),
        next: column + values.len(),
    }) by {
        echoes_both_parts(
            row,
            column,
            b0.params() + b1.params() + b2.params() + b3.params() + b4.params() + b5.params()
                + b6.params() + b7.params(),
            b8.params(),
        );
        echoes_both_parts(
            row,
            column,
            b0.params() + b1.params() + b2.params() + b3.params() + b4.params() + b5.params()
                + b6.params(),
            b7.params(),
        );
        echoes_both_parts(
            row,
            column,
            b0.params() + b1.params() + b2.params() + b3.params() + b4.params() + b5.params(),
            b6.params(),
        );
        echoes_both_parts(
            row,
            column,
            b0.params() + b1.params() + b2.params() + b3.params() + b4.params(),
            b5.params(),
        );
        echoes_both_parts(
            row,
            column,
            b0.params() + b1.params() + b2.params() + b3.params(),
            b4.params(),
        );
        echoes_both_parts(row, column, b0.params() + b1.params() + b2.params(), b3.params());
        echoes_both_parts(row, column, b0.params() + b1.params(), b2.params());
        echoes_both_parts(row, column, b0.params(), b1.params());
        let c1 = column + b0.params().len();
        let c2 = c1 + b1.params().len();
        let c3 = c2 + b2.params().len();
        let c4 = c3 + b3.params().len();
        let c5 = c4 + b4.params().len();
        let c6 = c5 + b5.params().len();
        let c7 = c6 + b6.params().len();
        let c8 = c7 + b7.params().len();
        let c9 = c8 + b8.params().len();
        assert(C0::read(row, column) == (Read::Got { value: m0, next: c1 }));
        assert(C1::read(row, c1) == (Read::Got { value: m1, next: c2 }));
        assert(C2::read(row, c2) == (Read::Got { value: m2, next: c3 }));
        assert(C3::read(row, c3) == (Read::Got { value: m3, next: c4 }));
        assert(C4::read(row, c4) == (Read::Got { value: m4, next: c5 }));
        assert(C5::read(row, c5) == (Read::Got { value: m5, next: c6 }));
        assert(C6::read(row, c6) == (Read::Got { value: m6, next: c7 }));
        assert(C7::read(row, c7) == (Read::Got { value: m7, next: c8 }));
        assert(C8::read(row, c8) == (Read::Got { value: m8, next: c9 }));
    }
}

/// A tuple of ten whose elements are each restored is restored, element
/// by element in the order of declaration.
pub proof fn round_trip_of_ten<
    B0: Bindable, B1: Bindable, B2: Bindable, B3: Bindable, B4: Bindable, B5: Bindable,
    B6: Bindable, B7: Bindable, B8: Bindable, B9: Bindable, C0: Collectable, C1: Collectable,
    C2: Collectable, C3: Collectable, C4: Collectable, C5: Collectable, C6: Collectable,
    C7: Collectable, C8: Collectable, C9: Collectable,
>(
    b0: B0, b1: B1, b2: B2, b3: B3, b4: B4, b5: B5, b6: B6, b7: B7, b8: B8, b9: B9, m0: C0::Model,
    m1: C1::Model, m2: C2::Model, m3: C3::Model, m4: C4::Model, m5: C5::Model, m6: C6::Model,
    m7: C7::Model, m8: C8::Model, m9: C9::Model,
)
    requires
        restores::<C0>(b0.params(), m0),
        restores::<C1>(b1.params(), m1),
        restores::<C2>(b2.params(), m2),
        restores::<C3>(b3.params(), m3),
        restores::<C4>(b4.params(), m4),
        restores::<C5>(b5.params(), m5),
        restores::<C6>(b6.params(), m6),
        restores::<C7>(b7.params(), m7),
        restores::<C8>(b8.params(), m8),
        restores::<C9>(b9.params(), m9),
    ensures
        restores::<(C0, C1, C2, C3, C4, C5, C6, C7, C8, C9)>(
            (b0, b1, b2, b3, b4, b5, b6, b7, b8, b9).params(),
            (m0, m1, m2, m3, m4, m5, m6, m7, m8, m9),
        ),
{
    let values = (b0, b1, b2, b3, b4, b5, b6, b7, b8, b9).params();
    assert forall|row: RowView, column: int|
        echoes(row, column, values) && column + values.len() <= i32::MAX implies #[trigger]
    <(C0, C1, C2, C3, C4, C5, C6, C7, C8, C9)>::read(row, column) == (Read::Got {
        value: (m0, m1, m2, m3, m4, m5, m6, m7, m8, m9),
        next: column + values.len(),
    }) by {
        echoes_both_parts(
            row,
            column,
            b0.params() + b1.params() + b2.params() + b3.params() + b4.params() + b5.params()
                + b6.params() + b7.params() + b8.params(),
            b9.params(),
        );
        echoes_both_parts(
            row,
            column,
            b0.params() + b1.params() + b2.params() + b3.params() + b4.params() + b5.params()
                + b6.params() + b7.params(),
            b8.params(),
        );
        echoes_both_parts(
            row,
            column,
            b0.params() + b1.params() + b2.params() + b3.params() + b4.params() + b5.params()
                + b6.params(),
            b7.params(),
        );
        echoes_both_parts(
            row,
            column,
            b0.params() + b1.params() + b2.params() + b3.params() + b4.params() + b5.params(),
            b6.params(),
        );
        echoes_both_parts(
            row,
            column,
            b0.params() + b1.params() + b2.params() + b3.params() + b4.params(),
            b5.params(),
        );
        echoes_both_parts(
            row,
            column,
            b0.params() + b1.params() + b2.params() + b3.params(),
            b4.params(),
        );
        echoes_both_parts(row, column, b0.params() + b1.params() + b2.params(), b3.params());
        echoes_both_parts(row, column, b0.params() + b1.params(), b2.params());
        echoes_both_parts(row, column, b0.params(), b1.params());
        let c1 = column + b0.params().len();
        let c2 = c1 + b1.params().len();
        let c3 = c2 + b2.params().len();
        let c4 = c3 + b3.params().len();
        let c5 = c4 + b4.params().len();
        let c6 = c5 + b5.params().len();
        let c7 = c6 + b6.params().len();
        let c8 = c7 + b7.params().len();
        let c9 = c8 + b8.params().len();
        let c10 = c9 + b9.params().len();
        assert(C0::read(row, column) == (Read::Got { value: m0, next: c1 }));
        assert(C1::read(row, c1) == (Read::Got { value: m1, next: c2 }));
        assert(C2::read(row, c2) == (Read::Got { value: m2, next: c3 }));
        assert(C3::read(row, c3) == (Read::Got { value: m3, next: c4 }));
        assert(C4::read(row, c4) == (Read::Got { value: m4, next: c5 }));
        assert(C5::read(row, c5) == (Read::Got { value: m5, next: c6 }));
        assert(C6::read(row, c6) == (Read::Got { value: m6, next: c7 }));
        assert(C7::read(row, c7) == (Read::Got { value: m7, next: c8 }));
        assert(C8::read(row, c8) == (Read::Got { value: m8, next: c9 }));
        assert(C9::read(row, c9) == (Read::Got { value: m9, next: c10 }));
    }
}

/// A tuple of eleven whose elements are each restored is restored, element
/// by element in the order of declaration.
pub proof fn round_trip_of_eleven<
    B0: Bindable, B1: Bindable, B2: Bindable, B3: Bindable, B4: Bindable, B5: Bindable,
    B6: Bindable, B7: Bindable, B8: Bindable, B9: Bindable, B10: Bindable, C0: Collectable,
    C1: Collectable, C2: Collectable, C3: Collectable, C4: Collectable, C5: Collectable,
    C6: Collectable, C7: Collectable, C8: Collectable, C9: Collectable, C10: Collectable,
>(
    b0: B0, b1: B1, b2: B2, b3: B3, b4: B4, b5: B5, b6: B6, b7: B7, b8: B8, b9: B9, b10: B10,
    m0: C0::Model, m1: C1::Model, m2: C2::Model, m3: C3::Model, m4: C4::Model, m5: C5::Model,
    m6: C6::Model, m7: C7::Model, m8: C8::Model, m9: C9::Model, m10: C10::Model,
)
    requires
        restores::<C0>(b0.params(), m0),
        restores::<C1>(b1.params(), m1),
        restores::<C2>(b2.params(), m2),
        restores::<C3>(b3.params(), m3),
        restores::<C4>(b4.params(), m4),
        restores::<C5>(b5.params(), m5),
        restores::<C6>(b6.params(), m6),
        restores::<C7>(b7.params(), m7),
        restores::<C8>(b8.params(), m8),
        restores::<C9>(b9.params(), m9),
        restores::<C10>(b10.params(), m10),
    ensures
        restores::<(C0, C1, C2, C3, C4, C5, C6, C7, C8, C9, C10)>(
            (b0, b1, b2, b3, b4, b5, b6, b7, b8, b9, b10).params(),
            (m0, m1, m2, m3, m4, m5, m6, m7, m8, m9, m10),
        ),
{
    let values = (b0, b1, b2, b3, b4, b5, b6, b7, b8, b9, b10).params();
    assert forall|row: RowView, column: int|
        echoes(row, column, values) && column + values.len() <= i32::MAX implies #[trigger]
    <(C0, C1, C2, C3, C4, C5, C6, C7, C8, C9, C10)>::read(row, column) == (Read::Got {
        value: (m0, m1, m2, m3, m4, m5, m6, m7, m8, m9, m10),
        next: column + values.len(),
    }) by {
        echoes_both_parts(
            row,
            column,
            b0.params() + b1.params() + b2.params() + b3.params() + b4.params() + b5.params()
                + b6.params() + b7.params() + b8.params() + b9.params(),
            b10.params(),
        );
        echoes_both_parts(
            row,
            column,
            b0.params() + b1.params() + b2.params() + b3.params() + b4.params() + b5.params()
                + b6.params() + b7.params() + b8.params(),
            b9.params(),
        );
        echoes_both_parts(
            row,
            column,
            b0.params() + b1.params() + b2.params() + b3.params() + b4.params() + b5.params()
                + b6.params() + b7.params(),
            b8.params(),
        );
        echoes_both_parts(
            row,
            column,
            b0.params() + b1.params() + b2.params() + b3.params() + b4.params() + b5.params()
                + b6.params(),
            b7.params(),
        );
        echoes_both_parts(
            row,
            column,
            b0.params() + b1.params() + b2.params() + b3.params() + b4.params() + b5.params(),
            b6.params(),
        );
        echoes_both_parts(
            row,
            column,
            b0.params() + b1.params() + b2.params() + b3.params() + b4.params(),
            b5.params(),
        );
        echoes_both_parts(
            row,
            column,
            b0.params() + b1.params() + b2.params() + b3.params(),
            b4.params(),
        );
        echoes_both_parts(row, column, b0.params() + b1.params() + b2.params(), b3.params());
        echoes_both_parts(row, column, b0.params() + b1.params(), b2.params());
        echoes_both_parts(row, column, b0.params(), b1.params());
        let c1 = column + b0.params().len();
        let c2 = c1 + b1.params().len();
        let c3 = c2 + b2.params().len();
        let c4 = c3 + b3.params().len();
        let c5 = c4 + b4.params().len();
        let c6 = c5 + b5.params().len();
        let c7 = c6 + b6.params().len();
        let c8 = c7 + b7.params().len();
        let c9 = c8 + b8.params().len();
        let c10 = c9 + b9.params().len();
        let c11 = c10 + b10.params().len();
        assert(C0::read(row, column) == (Read::Got { value: m0, next: c1 }));
        assert(C1::read(row, c1) == (Read::Got { value: m1, next: c2 }));
        assert(C2::read(row, c2) == (Read::Got { value: m2, next: c3 }));
        assert(C3::read(row, c3) == (Read::Got { value: m3, next: c4 }));
        assert(C4::read(row, c4) == (Read::Got { value: m4, next: c5 }));
        assert(C5::read(row, c5) == (Read::Got { value: m5, next: c6 }));
        assert(C6::read(row, c6) == (Read::Got { value: m6, next: c7 }));
        assert(C7::read(row, c7) == (Read::Got { value: m7, next: c8 }));
        assert(C8::read(row, c8) == (Read::Got { value: m8, next: c9 }));
        assert(C9::read(row, c9) == (Read::Got { value: m9, next: c10 }));
        assert(C10::read(row, c10) == (Read::Got { value: m10, next: c11 }));
    }
}

/// A tuple of twelve whose elements are each restored is restored, element
/// by element in the order of declaration.
pub proof fn round_trip_of_twelve<
    B0: Bindable, B1: Bindable, B2: Bindable, B3: Bindable, B4: Bindable, B5: Bindable,
    B6: Bindable, B7: Bindable, B8: Bindable, B9: Bindable, B10: Bindable, B11: Bindable,
    C0: Collectable, C1: Collectable, C2: Collectable, C3: Collectable, C4: Collectable,
    C5: Collectable, C6: Collectable, C7: Collectable, C8: Collectable, C9: Collectable,
    C10: Collectable, C11: Collectable,
>(
    b0: B0, b1: B1, b2: B2, b3: B3, b4: B4, b5: B5, b6: B6, b7: B7, b8: B8, b9: B9, b10: B10,
    b11: B11, m0: C0::Model, m1: C1::Model, m2: C2::Model, m3: C3::Model, m4: C4::Model,
    m5: C5::Model, m6: C6::Model, m7: C7::Model, m8: C8::Model, m9: C9::Model, m10: C10::Model,
    m11: C11::Model,
)
    requires
        restores::<C0>(b0.params(), m0),
        restores::<C1>(b1.params(), m1),
        restores::<C2>(b2.params(), m2),
        restores::<C3>(b3.params(), m3),
        restores::<C4>(b4.params(), m4),
        restores::<C5>(b5.params(), m5),
        restores::<C6>(b6.params(), m6),
        restores::<C7>(b7.params(), m7),
        restores::<C8>(b8.params(), m8),
        restores::<C9>(b9.params(), m9),
        restores::<C10>(b10.params(), m10),
        restores::<C11>(b11.params(), m11),
    ensures
        restores::<(C0, C1, C2, C3, C4, C5, C6, C7, C8, C9, C10, C11)>(
            (b0, b1, b2, b3, b4, b5, b6, b7, b8, b9, b10, b11).params(),
            (m0, m1, m2, m3, m4, m5, m6, m7, m8, m9, m10, m11),
        ),
{
    let values = (b0, b1, b2, b3, b4, b5, b6, b7, b8, b9, b10, b11).params();
    assert forall|row: RowView, column: int|
        echoes(row, column, values) && column + values.len() <= i32::MAX implies #[trigger]
    <(C0, C1, C2, C3, C4, C5, C6, C7, C8, C9, C10, C11)>::read(row, column) == (Read::Got {
        value: (m0, m1, m2, m3, m4, m5, m6, m7, m8, m9, m10, m11),
        next: column + values.len(),
    }) by {
        echoes_both_parts(
            row,
            column,
            b0.params() + b1.params() + b2.params() + b3.params() + b4.params() + b5.params()
                + b6.params() + b7.params() + b8.params() + b9.params() + b10.params(),
            b11.params(),
        );
        echoes_both_parts(
            row,
            column,
            b0.params() + b1.params() + b2.params() + b3.params() + b4.params() + b5.params()
                + b6.params() + b7.params() + b8.params() + b9.params(),
            b10.params(),
        );
        echoes_both_parts(
            row,
            column,
            b0.params() + b1.params() + b2.params() + b3.params() + b4.params() + b5.params()
                + b6.params() + b7.params() + b8.params(),
            b9.params(),
        );
        echoes_both_parts(
            row,
            column,
            b0.params() + b1.params() + b2.params() + b3.params() + b4.params() + b5.params()
                + b6.params() + b7.params(),
            b8.params(),
        );
        echoes_both_parts(
            row,
            column,
            b0.params() + b1.params() + b2.params() + b3.params() + b4.params() + b5.params()
                + b6.params(),
            b7.params(),
        );
        echoes_both_parts(
            row,
            column,
            b0.params() + b1.params() + b2.params() + b3.params() + b4.params() + b5.params(),
            b6.params(),
        );
        echoes_both_parts(
            row,
            column,
            b0.params() + b1.params() + b2.params() + b3.params() + b4.params(),
            b5.params(),
        );
        echoes_both_parts(
            row,
            column,
            b0.params() + b1.params() + b2.params() + b3.params(),
            b4.params(),
        );
        echoes_both_parts(row, column, b0.params() + b1.params() + b2.params(), b3.params());
        echoes_both_parts(row, column, b0.params() + b1.params(), b2.params());
        echoes_both_parts(row, column, b0.params(), b1.params());
        let c1 = column + b0.params().len();
        let c2 = c1 + b1.params().len();
        let c3 = c2 + b2.params().len();
        let c4 = c3 + b3.params().len();
        let c5 = c4 + b4.params().len();
        let c6 = c5 + b5.params().len();
        let c7 = c6 + b6.params().len();
        let c8 = c7 + b7.params().len();
        let c9 = c8 + b8.params().len();
        let c10 = c9 + b9.params().len();
        let c11 = c10 + b10.params().len();
        let c12 = c11 + b11.params().len();
        assert(C0::read(row, column) == (Read::Got { value: m0, next: c1 }));
        assert(C1::read(row, c1) == (Read::Got { value: m1, next: c2 }));
        assert(C2::read(row, c2) == (Read::Got { value: m2, next: c3 }));
        assert(C3::read(row, c3) == (Read::Got { value: m3, next: c4 }));
        assert(C4::read(row, c4) == (Read::Got { value: m4, next: c5 }));
        assert(C5::read(row, c5) == (Read::Got { value: m5, next: c6 }));
        assert(C6::read(row, c6) == (Read::Got { value: m6, next: c7 }));
        assert(C7::read(row, c7) == (Read::Got { value: m7, next: c8 }));
        assert(C8::read(row, c8) == (Read::Got { value: m8, next: c9 }));
        assert(C9::read(row, c9) == (Read::Got { value: m9, next: c10 }));
        assert(C10::read(row, c10) == (Read::Got { value: m10, next: c11 }));
        assert(C11::read(row, c11) == (Read::Got { value: m11, next: c12 }));
    }
}

/// A tuple of thirteen whose elements are each restored is restored, element
/// by element in the order of declaration.
pub proof fn round_trip_of_thirteen<
    B0: Bindable, B1: Bindable, B2: Bindable, B3: Bindable, B4: Bindable, B5: Bindable,
    B6: Bindable, B7: Bindable, B8: Bindable, B9: Bindable, B10: Bindable, B11: Bindable,
    B12: Bindable, C0: Collectable, C1: Collectable, C2: Collectable, C3: Collectable,
    C4: Collectable, C5: Collectable, C6: Collectable, C7: Collectable, C8: Collectable,
    C9: Collectable, C10: Collectable, C11: Collectable, C12: Collectable,
>(
    b0: B0, b1: B1, b2: B2, b3: B3, b4: B4, b5: B5, b6: B6, b7: B7, b8: B8, b9: B9, b10: B10,
    b11: B11, b12: B12, m0: C0::Model, m1: C1::Model, m2: C2::Model, m3: C3::Model, m4: C4::Model,
    m5: C5::Model, m6: C6::Model, m7: C7::Model, m8: C8::Model, m9: C9::Model, m10: C10::Model,
    m11: C11::Model, m12: C12::Model,
)
    requires
        restores::<C0>(b0.params(), m0),
        restores::<C1>(b1.params(), m1),
        restores::<C2>(b2.params(), m2),
        restores::<C3>(b3.params(), m3),
        restores::<C4>(b4.params(), m4),
        restores::<C5>(b5.params(), m5),
        restores::<C6>(b6.params(), m6),
        restores::<C7>(b7.params(), m7),
        restores::<C8>(b8.params(), m8),
        restores::<C9>(b9.params(), m9),
        restores::<C10>(b10.params(), m10),
        restores::<C11>(b11.params(), m11),
        restores::<C12>(b12.params(), m12),
    ensures
        restores::<(C0, C1, C2, C3, C4, C5, C6, C7, C8, C9, C10, C11, C12)>(
            (b0, b1, b2, b3, b4, b5, b6, b7, b8, b9, b10, b11, b12).params(),
            (m0, m1, m2, m3, m4, m5, m6, m7, m8, m9, m10, m11, m12),
        ),
{
    let values = (b0, b1, b2, b3, b4, b5, b6, b7, b8, b9, b10, b11, b12).params();
    assert forall|row: RowView, column: int|
        echoes(row, column, values) && column + values.len() <= i32::MAX implies #[trigger]
    <(C0, C1, C2, C3, C4, C5, C6, C7, C8, C9, C10, C11, C12)>::read(row, column) == (Read::Got {
        value: (m0, m1, m2, m3, m4, m5, m6, m7, m8, m9, m10, m11, m12),
        next: column + values.len(),
    }) by {
        echoes_both_parts(
            row,
            column,
            b0.params() + b1.params() + b2.params() + b3.params() + b4.params() + b5.params()
                + b6.params() + b7.params() + b8.params() + b9.params() + b10.params()
                + b11.params(),
            b12.params(),
        );
        echoes_both_parts(
            row,
            column,
            b0.params() + b1.params() + b2.params() + b3.params() + b4.params() + b5.params()
                + b6.params() + b7.params() + b8.params() + b9.params() + b10.params(),
            b11.params(),
        );
        echoes_both_parts(
            row,
            column,
            b0.params() + b1.params() + b2.params() + b3.params() + b4.params() + b5.params()
                + b6.params() + b7.params() + b8.params() + b9.params(),
            b10.params(),
        );
        echoes_both_parts(
            row,
            column,
            b0.params() + b1.params() + b2.params() + b3.params() + b4.params() + b5.params()
                + b6.params() + b7.params() + b8.params(),
            b9.params(),
        );
        echoes_both_parts(
            row,
            column,
            b0.params() + b1.params() + b2.params() + b3.params() + b4.params() + b5.params()
                + b6.params() + b7.params(),
            b8.params(),
        );
        echoes_both_parts(
            row,
            column,
            b0.params() + b1.params() + b2.params() + b3.params() + b4.params() + b5.params()
                + b6.params(),
            b7.params(),
        );
        echoes_both_parts(
            row,
            column,
            b0.params() + b1.params() + b2.params() + b3.params() + b4.params() + b5.params(),
            b6.params(),
        );
        echoes_both_parts(
            row,
            column,
            b0.params() + b1.params() + b2.params() + b3.params() + b4.params(),
            b5.params(),
        );
        echoes_both_parts(
            row,
            column,
            b0.params() + b1.params() + b2.params() + b3.params(),
            b4.params(),
        );
        echoes_both_parts(row, column, b0.params() + b1.params() + b2.params(), b3.params());
        echoes_both_parts(row, column, b0.params() + b1.params(), b2.params());
        echoes_both_parts(row, column, b0.params(), b1.params());
        let c1 = column + b0.params().len();
        let c2 = c1 + b1.params().len();
        let c3 = c2 + b2.params().len();
        let c4 = c3 + b3.params().len();
        let c5 = c4 + b4.params().len();
        let c6 = c5 + b5.params().len();
        let c7 = c6 + b6.params().len();
        let c8 = c7 + b7.params().len();
        let c9 = c8 + b8.params().len();
        let c10 = c9 + b9.params().len();
        let c11 = c10 + b10.params().len();
        let c12 = c11 + b11.params().len();
        let c13 = c12 + b12.params().len();
        assert(C0::read(row, column) == (Read::Got { value: m0, next: c1 }));
        assert(C1::read(row, c1) == (Read::Got { value: m1, next: c2 }));
        assert(C2::read(row, c2) == (Read::Got { value: m2, next: c3 }));
        assert(C3::read(row, c3) == (Read::Got { value: m3, next: c4 }));
        assert(C4::read(row, c4) == (Read::Got { value: m4, next: c5 }));
        assert(C5::read(row, c5) == (Read::Got { value: m5, next: c6 }));
        assert(C6::read(row, c6) == (Read::Got { value: m6, next: c7 }));
        assert(C7::read(row, c7) == (Read::Got { value: m7, next: c8 }));
        assert(C8::read(row, c8) == (Read::Got { value: m8, next: c9 }));
        assert(C9::read(row, c9) == (Read::Got { value: m9, next: c10 }));
        assert(C10::read(row, c10) == (Read::Got { value: m10, next: c11 }));
        assert(C11::read(row, c11) == (Read::Got { value: m11, next: c12 }));
        assert(C12::read(row, c12) == (Read::Got { value: m12, next: c13 }));
    }
}

} // verus!
