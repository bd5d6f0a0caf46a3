//! Operations on a connection, each of which prepares a statement for itself
//! and releases it when it is through with it.

use vstd::prelude::*;
use vstd::utf8::encode_utf8;
use crate::bindable::Bindable;
use crate::collectable::Collectable;
use crate::database::{Database, Preparing, PreparingStage, PreparingView};
use crate::error::RsqliteError;
use crate::protocol::{Progress, ProgressView, Reply, ReplyView, Request, RequestView, reply_view};
use crate::statement::{
    collecting_advance, executing_advance, progress_model, result_model, visit_model,
    visiting_advance, Collecting, Executing, RunView, Statement, Visit, VisitView, Visiting,
};
use crate::text::{is_first_zero, zero_free};
use crate::value::{placed, ParamView};

verus! {

/// Where an operation that prepares its own statement stands.
pub enum Scope<T> {
    /// The statement is being prepared.
    Preparing,
    /// The operation runs on the statement.
    Running,
    /// The statement is being released, after which the operation ends with
    /// this result.
    Releasing(Result<T, RsqliteError>),
    /// The operation has ended.
    Finished,
}

/// What an operation that prepares its own statement is, at one moment.
pub struct ScopedView<M> {
    /// The preparing of the statement.
    pub preparing: PreparingView,
    /// The operation on the statement.
    pub run: RunView<M>,
    /// Which of the two is under way.
    pub stage: Scope<M>,
}

impl<M> ScopedView<M> {
    /// An operation that is to prepare the C string `sql` and to bind
    /// `parameters`.
    pub open spec fn fresh(sql: Seq<u8>, parameters: Seq<ParamView>) -> ScopedView<M> {
        ScopedView {
            preparing: PreparingView { sql, stage: PreparingStage::Fresh },
            run: RunView::fresh(parameters),
            stage: Scope::Preparing,
        }
    }

    /// This operation at another stage.
    pub open spec fn at(self, stage: Scope<M>) -> ScopedView<M> {
        ScopedView { preparing: self.preparing, run: self.run, stage }
    }

    /// This operation with its preparing moved on.
    pub open spec fn prepared(self, preparing: PreparingView) -> ScopedView<M> {
        ScopedView { preparing, run: self.run, stage: self.stage }
    }

    /// This operation with its run on the statement moved on.
    pub open spec fn run(self, run: RunView<M>) -> ScopedView<M> {
        ScopedView { preparing: self.preparing, run, stage: self.stage }
    }

    /// The statement is released, and `result` kept for the end.
    pub open spec fn release(self, result: Result<M, RsqliteError>) -> (
        ScopedView<M>,
        ProgressView<M>,
    ) {
        (self.at(Scope::Releasing(result)), ProgressView::Ask(RequestView::Finalize))
    }

    /// The operation ends with `result`.
    pub open spec fn finish(self, result: Result<M, RsqliteError>) -> (
        ScopedView<M>,
        ProgressView<M>,
    ) {
        (self.at(Scope::Finished), ProgressView::Done(result))
    }

    /// The operation goes the way of `step`, a step of its run on the
    /// statement: it asks what the run asks, and releases the statement when
    /// the run has ended.
    pub open spec fn follow(self, step: (RunView<M>, ProgressView<M>)) -> (
        ScopedView<M>,
        ProgressView<M>,
    ) {
        match step.1 {
            ProgressView::Ask(request) => (
                self.run(step.0).at(Scope::Running),
                ProgressView::Ask(request),
            ),
            ProgressView::Done(result) => self.run(step.0).release(result),
        }
    }
}

/// What executing on a connection does with `reply`.
///
/// The statement is prepared; where that fails, its error is the result.
/// Then the execution runs on the statement. When it has ended, the statement
/// is released, and the result of the execution is the result.
pub open spec fn executing_once_advance(scoped: ScopedView<()>, reply: Option<ReplyView>) -> (
    ScopedView<()>,
    ProgressView<()>,
) {
    match scoped.stage {
        Scope::Preparing => {
            let prepared = scoped.preparing.advance(reply);
            let next = scoped.prepared(prepared.0);
            match prepared.1 {
                ProgressView::Ask(request) => (next, ProgressView::Ask(request)),
                ProgressView::Done(Err(error)) => next.finish(Err(error)),
                ProgressView::Done(Ok(columns)) => next.follow(executing_advance(next.run, None)),
            }
        },
        Scope::Running => scoped.follow(executing_advance(scoped.run, reply)),
        Scope::Releasing(result) => scoped.finish(result),
        Scope::Finished => scoped.finish(Err(RsqliteError::Misuse)),
    }
}

/// An execution on a connection, of a statement that is prepared for it.
pub struct ExecutingOnce<'a> {
    preparing: Preparing<'a>,
    statement: Option<Statement<'a>>,
    operation: Executing<'a>,
    stage: Scope<()>,
}

impl<'a> View for ExecutingOnce<'a> {
    type V = ScopedView<()>;

    closed spec fn view(&self) -> ScopedView<()> {
        ScopedView { preparing: self.preparing@, run: self.operation@, stage: self.stage }
    }
}

/// The call that releases `statement`, which is given up with it.
fn released(statement: Option<Statement<'_>>) -> (request: Request)
    ensures
        request@ == RequestView::Finalize,
{
    match statement {
        Some(statement) => statement.finalize(),
        None => Request::Finalize,
    }
}

impl<'a> ExecutingOnce<'a> {
    /// Takes the reply to what was asked for last, or `None` at the start,
    /// and says how the execution goes on.
    pub fn advance(&mut self, reply: Option<Reply>) -> (progress: Progress<()>)
        ensures
            final(self)@ == executing_once_advance(old(self)@, reply_view(reply)).0,
            progress_model(progress) == executing_once_advance(old(self)@, reply_view(reply)).1,
    {
        let mut stage = Scope::Finished;
        core::mem::swap(&mut self.stage, &mut stage);
        match stage {
            Scope::Preparing => match self.preparing.advance(reply) {
                Progress::Ask(request) => {
                    self.stage = Scope::Preparing;
                    Progress::Ask(request)
                },
                Progress::Done(Err(error)) => Progress::Done(Err(error)),
                Progress::Done(Ok(statement)) => {
                    self.statement = Some(statement);
                    let step = self.operation.advance(None);
                    self.follow(step)
                },
            },
            Scope::Running => {
                let step = self.operation.advance(reply);
                self.follow(step)
            },
            Scope::Releasing(result) => Progress::Done(result),
            Scope::Finished => Progress::Done(Err(RsqliteError::Misuse)),
        }
    }

    fn follow(&mut self, step: Progress<()>) -> (progress: Progress<()>)
        ensures
            final(self)@ == old(self)@.follow((old(self)@.run, progress_model(step))).0,
            progress_model(progress) == old(self)@.follow((old(self)@.run, progress_model(step))).1,
    {
        match step {
            Progress::Ask(request) => {
                self.stage = Scope::Running;
                Progress::Ask(request)
            },
            Progress::Done(result) => {
                self.stage = Scope::Releasing(result);
                Progress::Ask(released(self.statement.take()))
            },
        }
    }
}

/// Whether a shape of `needed` columns is out of the range of a statement
/// whose rows have `columns` columns: it is where the shape needs more
/// columns than the rows have, and where it needs more than a 32-bit offset
/// counts.
pub open spec fn beyond_columns(needed: nat, columns: int) -> bool {
    needed > columns || needed >= i32::MAX
}

/// What collecting one row on a connection does with `reply`, for the target
/// type `R`.
///
/// The statement is prepared; where that fails, its error is the result.
/// Where `R` needs more columns than the rows of the statement have, the
/// statement is released, and the range error is the result: no parameter is
/// bound and the statement is not stepped. Else the collection runs on the
/// statement. When it has ended, the statement is released, and the result of
/// the collection is the result.
pub open spec fn collecting_once_advance<R: Collectable>(
    scoped: ScopedView<R::Model>,
    reply: Option<ReplyView>,
) -> (ScopedView<R::Model>, ProgressView<R::Model>) {
    match scoped.stage {
        Scope::Preparing => {
            let prepared = scoped.preparing.advance(reply);
            let next = scoped.prepared(prepared.0);
            match prepared.1 {
                ProgressView::Ask(request) => (next, ProgressView::Ask(request)),
                ProgressView::Done(Err(error)) => next.finish(Err(error)),
                ProgressView::Done(Ok(columns)) => if beyond_columns(R::columns(), columns) {
                    next.release(Err(RsqliteError::Range))
                } else {
                    next.follow(collecting_advance::<R>(next.run, None))
                },
            }
        },
        Scope::Running => scoped.follow(collecting_advance::<R>(scoped.run, reply)),
        Scope::Releasing(result) => scoped.finish(result),
        Scope::Finished => scoped.finish(Err(RsqliteError::Misuse)),
    }
}

/// What `stage` is, over the model of the result that it may keep.
pub open spec fn scope_model<T: Collectable>(stage: Scope<T>) -> Scope<T::Model> {
    match stage {
        Scope::Preparing => Scope::Preparing,
        Scope::Running => Scope::Running,
        Scope::Releasing(result) => Scope::Releasing(result_model(result)),
        Scope::Finished => Scope::Finished,
    }
}

/// The collection of a single row on a connection, from a statement that is
/// prepared for it.
pub struct CollectingOnce<'a, R> {
    preparing: Preparing<'a>,
    statement: Option<Statement<'a>>,
    operation: Collecting<'a, R>,
    stage: Scope<R>,
}

impl<'a, R: Collectable> View for CollectingOnce<'a, R> {
    type V = ScopedView<R::Model>;

    closed spec fn view(&self) -> ScopedView<R::Model> {
        ScopedView {
            preparing: self.preparing@,
            run: self.operation@,
            stage: scope_model(self.stage),
        }
    }
}

impl<'a, R: Collectable> CollectingOnce<'a, R> {
    /// Takes the reply to what was asked for last, or `None` at the start,
    /// and says how the collection goes on.
    pub fn advance(&mut self, reply: Option<Reply>) -> (progress: Progress<R>)
        ensures
            final(self)@ == collecting_once_advance::<R>(old(self)@, reply_view(reply)).0,
            progress_model(progress) == collecting_once_advance::<R>(
                old(self)@,
                reply_view(reply),
            ).1,
    {
        let mut stage: Scope<R> = Scope::Finished;
        core::mem::swap(&mut self.stage, &mut stage);
        match stage {
            Scope::Preparing => match self.preparing.advance(reply) {
                Progress::Ask(request) => {
                    self.stage = Scope::Preparing;
                    Progress::Ask(request)
                },
                Progress::Done(Err(error)) => Progress::Done(Err(error)),
                Progress::Done(Ok(statement)) => {
                    let needed: i32 = R::columns_needed();
                    let short: bool = needed > statement.column_count() || needed == i32::MAX;
                    self.statement = Some(statement);
                    if short {
                        self.stage = Scope::Releasing(Err(RsqliteError::Range));
                        Progress::Ask(released(self.statement.take()))
                    } else {
                        let step = self.operation.advance(None);
                        self.follow(step)
                    }
                },
            },
            Scope::Running => {
                let step = self.operation.advance(reply);
                self.follow(step)
            },
            Scope::Releasing(result) => Progress::Done(result),
            Scope::Finished => Progress::Done(Err(RsqliteError::Misuse)),
        }
    }

    fn follow(&mut self, step: Progress<R>) -> (progress: Progress<R>)
        ensures
            final(self)@ == old(self)@.follow((old(self)@.run, progress_model(step))).0,
            progress_model(progress) == old(self)@.follow((old(self)@.run, progress_model(step))).1,
    {
        match step {
            Progress::Ask(request) => {
                self.stage = Scope::Running;
                Progress::Ask(request)
            },
            Progress::Done(result) => {
                self.stage = Scope::Releasing(result);
                Progress::Ask(released(self.statement.take()))
            },
        }
    }
}

/// A step of a visit on a connection that hands out no row.
pub open spec fn no_row<M>(step: (ScopedView<()>, ProgressView<()>)) -> (
    ScopedView<()>,
    VisitView<M>,
) {
    (step.0, VisitView { row: None, next: step.1 })
}

/// The visit on a connection goes the way of `step`, a step of the visit on
/// the statement: it hands out the row that the step hands out, asks what the
/// step asks, and releases the statement when the visit on it has ended.
pub open spec fn follow_visit<M>(scoped: ScopedView<()>, step: (RunView<()>, VisitView<M>)) -> (
    ScopedView<()>,
    VisitView<M>,
) {
    (
        scoped.follow((step.0, step.1.next)).0,
        VisitView { row: step.1.row, next: scoped.follow((step.0, step.1.next)).1 },
    )
}

/// What visiting all rows on a connection does with `reply`, for rows of the
/// type `T`.
///
/// The statement is prepared; where that fails, its error is the result.
/// Where `T` needs more columns than the rows of the statement have, the
/// statement is released, and the range error is the result: no parameter is
/// bound and the statement is not stepped. Else the visit runs on the
/// statement, and hands out its rows. When it has ended, the statement is
/// released, and the result of the visit is the result.
pub open spec fn visiting_once_advance<T: Collectable>(
    scoped: ScopedView<()>,
    reply: Option<ReplyView>,
) -> (ScopedView<()>, VisitView<T::Model>) {
    match scoped.stage {
        Scope::Preparing => {
            let prepared = scoped.preparing.advance(reply);
            let next = scoped.prepared(prepared.0);
            match prepared.1 {
                ProgressView::Ask(request) => no_row((next, ProgressView::Ask(request))),
                ProgressView::Done(Err(error)) => no_row(next.finish(Err(error))),
                ProgressView::Done(Ok(columns)) => if beyond_columns(T::columns(), columns) {
                    no_row(next.release(Err(RsqliteError::Range)))
                } else {
                    follow_visit(next, visiting_advance::<T>(next.run, None))
                },
            }
        },
        Scope::Running => follow_visit(scoped, visiting_advance::<T>(scoped.run, reply)),
        Scope::Releasing(result) => no_row(scoped.finish(result)),
        Scope::Finished => no_row(scoped.finish(Err(RsqliteError::Misuse))),
    }
}

/// The visit of all rows on a connection, of a statement that is prepared for
/// it.
pub struct VisitingOnce<'a, T> {
    preparing: Preparing<'a>,
    statement: Option<Statement<'a>>,
    operation: Visiting<'a, T>,
    stage: Scope<()>,
}

impl<'a, T: Collectable> View for VisitingOnce<'a, T> {
    type V = ScopedView<()>;

    closed spec fn view(&self) -> ScopedView<()> {
        ScopedView { preparing: self.preparing@, run: self.operation@, stage: self.stage }
    }
}

impl<'a, T: Collectable> VisitingOnce<'a, T> {
    /// Takes the reply to what was asked for last, or `None` at the start,
    /// and says how the visit goes on.
    pub fn advance(&mut self, reply: Option<Reply>) -> (visit: Visit<T>)
        ensures
            final(self)@ == visiting_once_advance::<T>(old(self)@, reply_view(reply)).0,
            visit_model(visit) == visiting_once_advance::<T>(old(self)@, reply_view(reply)).1,
    {
        let mut stage = Scope::Finished;
        core::mem::swap(&mut self.stage, &mut stage);
        match stage {
            Scope::Preparing => match self.preparing.advance(reply) {
                Progress::Ask(request) => {
                    self.stage = Scope::Preparing;
                    Visit { row: None, next: Progress::Ask(request) }
                },
                Progress::Done(Err(error)) => Visit { row: None, next: Progress::Done(Err(error)) },
                Progress::Done(Ok(statement)) => {
                    let needed: i32 = T::columns_needed();
                    let short: bool = needed > statement.column_count() || needed == i32::MAX;
                    self.statement = Some(statement);
                    if short {
                        self.stage = Scope::Releasing(Err(RsqliteError::Range));
                        Visit { row: None, next: Progress::Ask(released(self.statement.take())) }
                    } else {
                        let step = self.operation.advance(None);
                        self.follow(step)
                    }
                },
            },
            Scope::Running => {
                let step = self.operation.advance(reply);
                self.follow(step)
            },
            Scope::Releasing(result) => Visit { row: None, next: Progress::Done(result) },
            Scope::Finished => Visit { row: None, next: Progress::Done(Err(RsqliteError::Misuse)) },
        }
    }

    fn follow(&mut self, step: Visit<T>) -> (visit: Visit<T>)
        ensures
            final(self)@ == follow_visit(old(self)@, (old(self)@.run, visit_model(step))).0,
            visit_model(visit) == follow_visit(old(self)@, (old(self)@.run, visit_model(step))).1,
    {
        match step.next {
            Progress::Ask(request) => {
                self.stage = Scope::Running;
                Visit { row: step.row, next: Progress::Ask(request) }
            },
            Progress::Done(result) => {
                self.stage = Scope::Releasing(result);
                Visit { row: step.row, next: Progress::Ask(released(self.statement.take())) }
            },
        }
    }
}

impl Database {
    /// Sets out to execute `sql` with the parameters `params`, bound from
    /// position 1 on, on a statement that is prepared for this and released
    /// after it. No row is expected of it.
    ///
    /// Text that holds a zero byte is refused here, and so are more
    /// parameters than there are positions, before anything is asked of the
    /// engine.
    pub fn execute<'a, P: Bindable>(&'a self, sql: &str, params: P) -> (execution: Result<
        ExecutingOnce<'a>,
        RsqliteError,
    >)
        ensures
            match execution {
                Ok(executing) => {
                    &&& zero_free(encode_utf8(sql@))
                    &&& params.params().len() < i32::MAX
                    &&& executing@ == ScopedView::<()>::fresh(
                        encode_utf8(sql@).push(0u8),
                        placed(params.params(), 1),
                    )
                },
                Err(error) => refused(encode_utf8(sql@), params.params().len(), error),
            },
    {
        let preparing = self.prepare(sql)?;
        let operation = Executing::set_up(params)?;
        Ok(ExecutingOnce { preparing, statement: None, operation, stage: Scope::Preparing })
    }

    /// Sets out to collect the single row of `sql` as a value of the type
    /// `R`, with the parameters `params`, bound from position 1 on, from a
    /// statement that is prepared for this and released after it.
    ///
    /// Text that holds a zero byte is refused here, and so are more
    /// parameters than there are positions, before anything is asked of the
    /// engine.
    pub fn collect<'a, R: Collectable, P: Bindable>(&'a self, sql: &str, params: P) -> (collection:
        Result<CollectingOnce<'a, R>, RsqliteError>)
        ensures
            match collection {
                Ok(collecting) => {
                    &&& zero_free(encode_utf8(sql@))
                    &&& params.params().len() < i32::MAX
                    &&& collecting@ == ScopedView::<R::Model>::fresh(
                        encode_utf8(sql@).push(0u8),
                        placed(params.params(), 1),
                    )
                },
                Err(error) => refused(encode_utf8(sql@), params.params().len(), error),
            },
    {
        let preparing = self.prepare(sql)?;
        let operation = Collecting::set_up(params)?;
        Ok(CollectingOnce { preparing, statement: None, operation, stage: Scope::Preparing })
    }

    /// Sets out to visit all the rows of `sql`, each as a value of the type
    /// `T`, with the parameters `params`, bound from position 1 on, on a
    /// statement that is prepared for this and released after it.
    ///
    /// Text that holds a zero byte is refused here, and so are more
    /// parameters than there are positions, before anything is asked of the
    /// engine.
    pub fn for_each<'a, T: Collectable, P: Bindable>(&'a self, sql: &str, params: P) -> (visit:
        Result<VisitingOnce<'a, T>, RsqliteError>)
        ensures
            match visit {
                Ok(visiting) => {
                    &&& zero_free(encode_utf8(sql@))
                    &&& params.params().len() < i32::MAX
                    &&& visiting@ == ScopedView::<()>::fresh(
                        encode_utf8(sql@).push(0u8),
                        placed(params.params(), 1),
                    )
                },
                Err(error) => refused(encode_utf8(sql@), params.params().len(), error),
            },
    {
        let preparing = self.prepare(sql)?;
        let operation = Visiting::set_up(params)?;
        Ok(VisitingOnce { preparing, statement: None, operation, stage: Scope::Preparing })
    }
}

/// Whether `error` is what an operation with the text `sql` and `params`
/// parameters is refused with, before anything is asked of the engine: the
/// place of the first zero byte in the text, if it holds one; the range
/// error, if it holds none and the parameters are more than there are
/// positions.
pub open spec fn refused(sql: Seq<u8>, params: nat, error: RsqliteError) -> bool {
    if zero_free(sql) {
        params >= i32::MAX && error == RsqliteError::Range
    } else {
        &&& error matches RsqliteError::InvalidCString(position)
        &&& is_first_zero(sql, position as int)
    }
}

} // verus!
