//! What holds of binding, collecting and visiting, whatever the values.

mod tuples;

use vstd::prelude::*;
use crate::bindable::Bindable;
use crate::codes::{SQLITE_DONE, SQLITE_NULL, SQLITE_OK, SQLITE_ROW};
use crate::collectable::{behind, Collectable, Read};
use crate::error::RsqliteError;
use crate::protocol::{ProgressView, ReplyView, RequestView};
use crate::row::RowView;
use crate::statement::{collecting_advance, visiting_advance, RunView, Stage};
use crate::value::{Double, ParamView, ValueView};

verus! {

/// Whether `row` holds, at the offset `column`, what the engine stores when
/// `value` is bound: its storage class is the one that binding gives the
/// value, and a reading of the column as the value's own kind is the value
/// itself, to the bit and to the byte.
pub open spec fn holds(row: RowView, column: int, value: ValueView) -> bool {
    &&& row.class_at(column) == Some(value.storage_class())
    &&& value.kind() is Some ==> row.value_at(column) == Some(value)
}

/// Whether `row` holds, in the columns from `column` on, what the engine
/// stores when `values` are bound, in their order. This is the row that a
/// query gives which selects its own parameters.
pub open spec fn echoes(row: RowView, column: int, values: Seq<ValueView>) -> bool {
    forall|i: int| 0 <= i < values.len() ==> holds(row, column + i, #[trigger] values[i])
}

/// Whether collecting a value of the type `C` restores `model` wherever a row
/// echoes `values` in columns that 32-bit offsets reach, and leaves the
/// running offset behind those columns.
pub open spec fn restores<C: Collectable>(values: Seq<ValueView>, model: C::Model) -> bool {
    forall|row: RowView, column: int|
        echoes(row, column, values) && column + values.len() <= i32::MAX ==> #[trigger] C::read(
            row,
            column,
        ) == (Read::Got { value: model, next: column + values.len() })
}

/// A row that echoes a concatenation echoes its first part, and behind it the
/// second.
pub proof fn echoes_both_parts(
    row: RowView,
    column: int,
    first: Seq<ValueView>,
    second: Seq<ValueView>,
)
    requires
        echoes(row, column, first + second),
    ensures
        echoes(row, column, first),
        echoes(row, column + first.len(), second),
{
    assert forall|i: int| 0 <= i < first.len() implies holds(
        row,
        column + i,
        #[trigger] first[i],
    ) by {
        assert((first + second)[i] == first[i]);
    }
    assert forall|i: int| 0 <= i < second.len() implies holds(
        row,
        column + first.len() + i,
        #[trigger] second[i],
    ) by {
        assert((first + second)[first.len() + i] == second[i]);
    }
}

/// A 32-bit integer that is bound and collected again is the same integer.
pub proof fn int_round_trip(value: i32)
    ensures
        restores::<i32>(value.params(), value),
{
    assert forall|row: RowView, column: int|
        echoes(row, column, value.params()) && column + 1 <= i32::MAX implies #[trigger]
    i32::read(row, column) == (Read::Got { value, next: column + 1 }) by {
        assert(holds(row, column + 0, value.params()[0]));
    }
}

/// A 64-bit integer that is bound and collected again is the same integer.
pub proof fn int64_round_trip(value: i64)
    ensures
        restores::<i64>(value.params(), value),
{
    assert forall|row: RowView, column: int|
        echoes(row, column, value.params()) && column + 1 <= i32::MAX implies #[trigger]
    i64::read(row, column) == (Read::Got { value, next: column + 1 }) by {
        assert(holds(row, column + 0, value.params()[0]));
    }
}

/// A double-precision number that is bound and collected again is the same
/// number, bit for bit.
pub proof fn double_round_trip(value: Double)
    ensures
        restores::<Double>(value.params(), value),
{
    assert forall|row: RowView, column: int|
        echoes(row, column, value.params()) && column + 1 <= i32::MAX implies #[trigger]
    Double::read(row, column) == (Read::Got { value, next: column + 1 }) by {
        assert(holds(row, column + 0, value.params()[0]));
    }
}

/// Text that is bound and collected again is the same text.
pub proof fn text_round_trip(text: &str)
    ensures
        restores::<String>(text.params(), text@),
{
    assert forall|row: RowView, column: int|
        echoes(row, column, text.params()) && column + 1 <= i32::MAX implies #[trigger]
    String::read(row, column) == (Read::Got { value: text@, next: column + 1 }) by {
        assert(holds(row, column + 0, text.params()[0]));
    }
}

/// Bytes that are bound and collected again are the same bytes.
pub proof fn blob_round_trip(bytes: &[u8])
    ensures
        restores::<Box<[u8]>>(bytes.params(), bytes@),
{
    assert forall|row: RowView, column: int|
        echoes(row, column, bytes.params()) && column + 1 <= i32::MAX implies #[trigger]
    <Box<[u8]>>::read(row, column) == (Read::Got { value: bytes@, next: column + 1 }) by {
        assert(holds(row, column + 0, bytes.params()[0]));
    }
}

/// The unit value binds nothing and is collected from nothing.
pub proof fn unit_round_trip()
    ensures
        restores::<()>(().params(), ()),
{
}

/// An optional value that holds nothing is bound as NULL, and a NULL is
/// collected as an optional value that holds nothing.
pub proof fn absent_round_trip<B: Bindable, C: Collectable>()
    ensures
        restores::<Option<C>>(None::<B>.params(), None),
{
    let values = None::<B>.params();
    assert forall|row: RowView, column: int|
        echoes(row, column, values) && column + values.len() <= i32::MAX implies #[trigger]
    <Option<C>>::read(row, column) == (Read::Got {
        value: None::<C::Model>,
        next: column + values.len(),
    }) by {
        assert(holds(row, column + 0, values[0]));
    }
}

/// An optional value that holds a value is bound as that value. Where that
/// value, bound and collected again, is the same, so is the optional value,
/// unless the first thing that it binds is itself a NULL.
pub proof fn present_round_trip<B: Bindable, C: Collectable>(value: B, model: C::Model)
    requires
        restores::<C>(value.params(), model),
        value.params().len() > 0,
        value.params()[0] != ValueView::Null,
    ensures
        restores::<Option<C>>(Some(value).params(), Some(model)),
{
    let values = Some(value).params();
    assert forall|row: RowView, column: int|
        echoes(row, column, values) && column + values.len() <= i32::MAX implies #[trigger]
    <Option<C>>::read(row, column) == (Read::Got {
        value: Some(model),
        next: column + values.len(),
    }) by {
        assert(holds(row, column + 0, values[0]));
        assert(C::read(row, column) == (Read::Got { value: model, next: column + values.len() }));
    }
}

/// A reference binds exactly what the value behind it binds.
pub proof fn reference_binds_as_value<B: Bindable>(value: B)
    ensures
        <&B as Bindable>::params(&&value) == value.params(),
{
}

/// An operation that is fresh, after it has been started and `accepted` of
/// its parameters have been bound with success: the state that it is in, and
/// what it asks for next.
pub open spec fn after_binding<M>(run: RunView<M>, accepted: nat) -> (RunView<M>, ProgressView<M>)
    decreases accepted,
{
    if accepted == 0 {
        run.advance_outside_rows(None)
    } else {
        after_binding(run, (accepted - 1) as nat).0.advance_outside_rows(
            Some(ReplyView::Code(SQLITE_OK)),
        )
    }
}

/// The parameters of an operation are bound in their order, one for each
/// success of the one before, and the statement is stepped when the last of
/// them has been bound. With [`placed`], which the operations are set up
/// with, the parameter that is bound after `accepted` others has the position
/// `1 + accepted`.
pub proof fn parameters_are_bound_in_order<M>(parameters: Seq<ParamView>, accepted: nat)
    requires
        accepted <= parameters.len(),
    ensures
        accepted < parameters.len() ==> after_binding(RunView::<M>::fresh(parameters), accepted)
            == RunView::<M>::fresh(parameters.skip(accepted as int + 1)).ask(
            Stage::Binding,
            RequestView::Bind {
                position: parameters[accepted as int].position,
                value: parameters[accepted as int].value,
            },
        ),
        accepted == parameters.len() ==> after_binding(RunView::<M>::fresh(parameters), accepted)
            == RunView::<M>::fresh(Seq::empty()).ask(Stage::Stepping, RequestView::Step),
    decreases accepted,
{
    let run = RunView::<M>::fresh(parameters);
    if accepted == 0 {
        assert(parameters.skip(1) =~= parameters.drop_first());
        assert(parameters.len() == 0 ==> parameters =~= Seq::empty());
    } else {
        parameters_are_bound_in_order::<M>(parameters, (accepted - 1) as nat);
        let before = after_binding(run, (accepted - 1) as nat).0;
        assert(before.parameters == parameters.skip(accepted as int));
        assert(before.stage is Binding);
        if accepted < parameters.len() {
            assert(before.parameters.drop_first() =~= parameters.skip(accepted as int + 1));
            assert(before.parameters[0] == parameters[accepted as int]);
        } else {
            assert(before.parameters =~= Seq::empty());
        }
    }
}

/// A column that holds NULL is collected as an optional value that holds
/// nothing, and takes one column.
pub proof fn null_collects_as_none<T: Collectable>(row: RowView, column: int)
    requires
        row.class_at(column) == Some(SQLITE_NULL),
    ensures
        <Option<T>>::read(row, column) == (Read::Got {
            value: None::<T::Model>,
            next: behind(column),
        }),
{
}

/// A column that does not hold NULL is collected as an optional value that
/// holds what collecting the inner type from the same column gives, and takes
/// the columns that the inner type takes.
pub proof fn value_collects_as_some<T: Collectable>(row: RowView, column: int)
    requires
        row.class_at(column) is Some,
        row.class_at(column) != Some(SQLITE_NULL),
    ensures
        match T::read(row, column) {
            Read::Got { value, next } => <Option<T>>::read(row, column) == (Read::Got {
                value: Some(value),
                next,
            }),
            Read::Need(request) => <Option<T>>::read(row, column) == Read::<
                Option<T::Model>,
            >::Need(request),
        },
{
}

/// Collecting a single row of an optional type, where the statement is done
/// without a row, gives the value that holds nothing: the statement is reset,
/// and that value is the result.
pub proof fn no_row_collects_as_none<T: Collectable>(
    run: RunView<Option<T::Model>>,
    reset: Option<ReplyView>,
)
    requires
        run.stage is Stepping,
    ensures
        collecting_advance::<Option<T>>(run, Some(ReplyView::Code(SQLITE_DONE))).1
            == ProgressView::<Option<T::Model>>::Ask(RequestView::Reset),
        collecting_advance::<Option<T>>(
            collecting_advance::<Option<T>>(run, Some(ReplyView::Code(SQLITE_DONE))).0,
            reset,
        ).1 == ProgressView::<Option<T::Model>>::Done(Ok(None)),
{
}

/// Collecting a single row of a type that has no value for "no row", where
/// the statement is done without a row, is the not-found error: the statement
/// is reset, and that error is the result. No value is made up.
pub proof fn no_row_is_not_found<R: Collectable>(run: RunView<R::Model>, reset: Option<ReplyView>)
    requires
        run.stage is Stepping,
        R::absent() is None,
    ensures
        collecting_advance::<R>(run, Some(ReplyView::Code(SQLITE_DONE))).1 == ProgressView::<
            R::Model,
        >::Ask(RequestView::Reset),
        collecting_advance::<R>(
            collecting_advance::<R>(run, Some(ReplyView::Code(SQLITE_DONE))).0,
            reset,
        ).1 == ProgressView::<R::Model>::Done(Err(RsqliteError::Notfound)),
{
}

/// A visit that is taken through `replies`, one after the other: the state
/// that it ends in, and the rows that it hands out on the way, in their order.
pub open spec fn visiting_run<T: Collectable>(
    run: RunView<()>,
    replies: Seq<Option<ReplyView>>,
) -> (RunView<()>, Seq<T::Model>)
    decreases replies.len(),
{
    if replies.len() == 0 {
        (run, Seq::empty())
    } else {
        let before = visiting_run::<T>(run, replies.drop_last());
        let step = visiting_advance::<T>(before.0, replies.last());
        (
            step.0,
            match step.1.row {
                Some(row) => before.1.push(row),
                None => before.1,
            },
        )
    }
}

/// The number of rows that the engine reports to a visit that is taken through
/// `replies`: the number of its steps that return the code for a row.
pub open spec fn rows_reported<T: Collectable>(
    run: RunView<()>,
    replies: Seq<Option<ReplyView>>,
) -> nat
    decreases replies.len(),
{
    if replies.len() == 0 {
        0
    } else {
        let before = visiting_run::<T>(run, replies.drop_last()).0;
        let reported = rows_reported::<T>(run, replies.drop_last());
        if before.stage is Stepping && replies.last() == Some(ReplyView::Code(SQLITE_ROW)) {
            reported + 1
        } else {
            reported
        }
    }
}

/// Whether each of `replies` that reaches the visit while it reads a row is
/// an answer to what the visit has asked of that row.
pub open spec fn answered_in_turn<T: Collectable>(
    run: RunView<()>,
    replies: Seq<Option<ReplyView>>,
) -> bool
    decreases replies.len(),
{
    if replies.len() == 0 {
        true
    } else {
        let before = visiting_run::<T>(run, replies.drop_last()).0;
        &&& answered_in_turn::<T>(run, replies.drop_last())
        &&& before.stage is Reading ==> {
            &&& replies.last() is Some
            &&& T::read(before.row, 0) is Need
            &&& before.row.put(T::read(before.row, 0)->Need_0, replies.last()->Some_0) is Some
        }
    }
}

/// A visit hands out each row that the engine reports once, where the engine
/// answers what it is asked of the rows: at every moment the rows handed out
/// are as many as the rows reported, less the one that is still being read.
/// So a visit that has got past its last row has handed out as many rows as
/// the engine has reported, neither more nor fewer.
pub proof fn visit_hands_out_each_row_once<T: Collectable>(
    run: RunView<()>,
    replies: Seq<Option<ReplyView>>,
)
    requires
        !(run.stage is Reading),
        answered_in_turn::<T>(run, replies),
    ensures
        visiting_run::<T>(run, replies).1.len() + (if visiting_run::<T>(run, replies).0.stage
            is Reading {
            1nat
        } else {
            0nat
        }) == rows_reported::<T>(run, replies),
    decreases replies.len(),
{
    if replies.len() > 0 {
        visit_hands_out_each_row_once::<T>(run, replies.drop_last());
        let before = visiting_run::<T>(run, replies.drop_last());
        let step = visiting_advance::<T>(before.0, replies.last());
        assert(visiting_run::<T>(run, replies).0 == step.0);
        if before.0.stage is Stepping {
        } else if before.0.stage is Reading {
        } else {
            assert(!(step.0.stage is Reading));
            assert(step.1.row is None);
        }
    }
}

/// The row that a visit hands out is the value that the type of its rows
/// collects from the first column on, out of what the replies since the last
/// step have told of the row; and the visit steps on behind it.
pub proof fn visit_hands_out_what_it_read<T: Collectable>(
    run: RunView<()>,
    reply: Option<ReplyView>,
)
    requires
        visiting_advance::<T>(run, reply).1.row is Some,
    ensures
        T::read(visiting_advance::<T>(run, reply).0.row, 0) is Got,
        visiting_advance::<T>(run, reply).1.row == Some(
            T::read(visiting_advance::<T>(run, reply).0.row, 0)->value,
        ),
        visiting_advance::<T>(run, reply).1.next == ProgressView::<()>::Ask(RequestView::Step),
        visiting_advance::<T>(run, reply).0.stage is Stepping,
{
}

} // verus!
