//! Prepared statements and the operations on them.

use core::marker::PhantomData;
use std::collections::VecDeque;
use vstd::prelude::*;
use crate::bindable::Bindable;
use crate::codes::{SQLITE_DONE, SQLITE_OK, SQLITE_ROW};
use crate::collectable::{stepped, Collectable, Read, Stepped};
use crate::error::{error_of_code, RsqliteError};
use crate::protocol::{Progress, ProgressView, Reply, ReplyView, Request, RequestView, reply_view};
use crate::row::{Row, RowView};
use crate::value::{param_views, placed, Param, ParamView};

verus! {

/// Where an operation on a statement stands: what it has asked for last.
pub enum Stage<T> {
    /// Nothing has been asked for yet.
    Fresh,
    /// A parameter is being bound.
    Binding,
    /// The statement is being stepped.
    Stepping,
    /// The row that the last step produced is being read.
    Reading,
    /// The statement is being reset, after which the operation ends with this
    /// result.
    Resetting(Result<T, RsqliteError>),
    /// The operation has ended.
    Finished,
}

/// What an operation on a statement is, at one moment.
pub struct RunView<M> {
    /// The parameters that are still to be bound, in their order.
    pub parameters: Seq<ParamView>,
    /// What the operation has asked for last.
    pub stage: Stage<M>,
    /// What is known of the current row; of account while a row is read.
    pub row: RowView,
}

impl<M> RunView<M> {
    /// An operation that has asked for nothing yet and is to bind
    /// `parameters`.
    pub open spec fn fresh(parameters: Seq<ParamView>) -> RunView<M> {
        RunView { parameters, stage: Stage::Fresh, row: RowView::empty() }
    }

    /// This operation at another stage.
    pub open spec fn at(self, stage: Stage<M>) -> RunView<M> {
        RunView { parameters: self.parameters, stage, row: self.row }
    }

    /// This operation with other knowledge of the current row.
    pub open spec fn with_row(self, row: RowView) -> RunView<M> {
        RunView { parameters: self.parameters, stage: self.stage, row }
    }

    /// The operation asks for `request`, and is at `stage` while it waits.
    pub open spec fn ask(self, stage: Stage<M>, request: RequestView) -> (
        RunView<M>,
        ProgressView<M>,
    ) {
        (self.at(stage), ProgressView::Ask(request))
    }

    /// The next parameter is bound; once there is none left, the statement is
    /// stepped.
    pub open spec fn bind_or_step(self) -> (RunView<M>, ProgressView<M>) {
        if self.parameters.len() > 0 {
            RunView {
                parameters: self.parameters.drop_first(),
                stage: self.stage,
                row: self.row,
            }.ask(
                Stage::Binding,
                RequestView::Bind {
                    position: self.parameters[0].position,
                    value: self.parameters[0].value,
                },
            )
        } else {
            self.ask(Stage::Stepping, RequestView::Step)
        }
    }

    /// The statement is reset, and `result` kept for the end.
    pub open spec fn reset(self, result: Result<M, RsqliteError>) -> (RunView<M>, ProgressView<M>) {
        self.ask(Stage::Resetting(result), RequestView::Reset)
    }

    /// The operation ends with `result`.
    pub open spec fn finish(self, result: Result<M, RsqliteError>) -> (
        RunView<M>,
        ProgressView<M>,
    ) {
        (self.at(Stage::Finished), ProgressView::Done(result))
    }

    /// What every operation does with `reply` before the statement is stepped
    /// and after its last step.
    ///
    /// It starts by binding. A parameter that the engine refuses ends the
    /// operation with that error: the parameters behind it are not bound, and
    /// the statement is not reset. After the reset the operation ends with the
    /// result that it had before; what the reset returned is of no account.
    /// Anything out of turn ends the operation as a misuse.
    pub open spec fn advance_outside_rows(self, reply: Option<ReplyView>) -> (
        RunView<M>,
        ProgressView<M>,
    ) {
        match self.stage {
            Stage::Fresh => match reply {
                None => self.bind_or_step(),
                Some(_) => self.finish(Err(RsqliteError::Misuse)),
            },
            Stage::Binding => match reply {
                Some(ReplyView::Code(code)) => if code == SQLITE_OK {
                    self.bind_or_step()
                } else {
                    self.finish(Err(error_of_code(code)))
                },
                _ => self.finish(Err(RsqliteError::Misuse)),
            },
            Stage::Resetting(result) => self.finish(result),
            _ => self.finish(Err(RsqliteError::Misuse)),
        }
    }
}

/// What the operation `progress` stands at is, over the model of its result.
pub open spec fn progress_model<T: Collectable>(progress: Progress<T>) -> ProgressView<T::Model> {
    match progress {
        Progress::Ask(request) => ProgressView::Ask(request@),
        Progress::Done(result) => ProgressView::Done(result_model(result)),
    }
}

/// What `result` is, over the model of its value.
pub open spec fn result_model<T: Collectable>(result: Result<T, RsqliteError>) -> Result<
    T::Model,
    RsqliteError,
> {
    match result {
        Ok(value) => Ok(value.model()),
        Err(error) => Err(error),
    }
}

/// The state that the operations on a statement share.
struct Run<T> {
    parameters: VecDeque<Param>,
    stage: Stage<T>,
    row: Row,
}

impl<T: Collectable> Run<T> {
    spec fn stage_model(stage: Stage<T>) -> Stage<T::Model> {
        match stage {
            Stage::Fresh => Stage::Fresh,
            Stage::Binding => Stage::Binding,
            Stage::Stepping => Stage::Stepping,
            Stage::Reading => Stage::Reading,
            Stage::Resetting(result) => Stage::Resetting(result_model(result)),
            Stage::Finished => Stage::Finished,
        }
    }

    spec fn view(&self) -> RunView<T::Model> {
        RunView {
            parameters: param_views(self.parameters@),
            stage: Self::stage_model(self.stage),
            row: self.row@,
        }
    }

    fn new(parameters: VecDeque<Param>) -> (run: Self)
        ensures
            run@ == RunView::<T::Model>::fresh(param_views(parameters@)),
    {
        Run { parameters, stage: Stage::Fresh, row: Row::new() }
    }

    /// Takes the stage out, and leaves the operation finished.
    fn take_stage(&mut self) -> (stage: Stage<T>)
        ensures
            stage == old(self).stage,
            final(self)@ == old(self)@.at(Stage::Finished),
    {
        let mut stage: Stage<T> = Stage::Finished;
        core::mem::swap(&mut self.stage, &mut stage);
        stage
    }

    fn bind_or_step(&mut self) -> (progress: Progress<T>)
        ensures
            final(self)@ == old(self)@.bind_or_step().0,
            progress_model(progress) == old(self)@.bind_or_step().1,
    {
        match self.parameters.pop_front() {
            Some(param) => {
                assert(param_views(self.parameters@) == param_views(
                    old(self).parameters@,
                ).drop_first());
                self.stage = Stage::Binding;
                Progress::Ask(Request::Bind { position: param.position, value: param.value })
            },
            None => {
                self.stage = Stage::Stepping;
                Progress::Ask(Request::Step)
            },
        }
    }

    fn reset(&mut self, result: Result<T, RsqliteError>) -> (progress: Progress<T>)
        ensures
            final(self)@ == old(self)@.reset(result_model(result)).0,
            progress_model(progress) == old(self)@.reset(result_model(result)).1,
    {
        self.stage = Stage::Resetting(result);
        Progress::Ask(Request::Reset)
    }

    fn finish(&mut self, result: Result<T, RsqliteError>) -> (progress: Progress<T>)
        ensures
            final(self)@ == old(self)@.at(Stage::Finished),
            progress_model(progress) == ProgressView::Done(result_model(result)),
    {
        self.stage = Stage::Finished;
        Progress::Done(result)
    }

    /// Advances from `stage`, which is none of the stages at which a row is
    /// awaited or read.
    fn advance_outside_rows(&mut self, stage: Stage<T>, reply: Option<Reply>) -> (progress:
        Progress<T>)
        requires
            !(stage is Stepping),
            !(stage is Reading),
        ensures
            final(self)@ == old(self)@.at(Self::stage_model(stage)).advance_outside_rows(
                reply_view(reply),
            ).0,
            progress_model(progress) == old(self)@.at(
                Self::stage_model(stage),
            ).advance_outside_rows(reply_view(reply)).1,
    {
        match stage {
            Stage::Fresh => match reply {
                None => self.bind_or_step(),
                Some(_) => self.finish(Err(RsqliteError::Misuse)),
            },
            Stage::Binding => match reply {
                Some(Reply::Code(code)) => {
                    if code == SQLITE_OK {
                        self.bind_or_step()
                    } else {
                        self.finish(Err(RsqliteError::from(code)))
                    }
                },
                _ => self.finish(Err(RsqliteError::Misuse)),
            },
            Stage::Resetting(result) => self.finish(result),
            _ => self.finish(Err(RsqliteError::Misuse)),
        }
    }
}

/// What executing does with `reply`.
///
/// The parameters are bound in their order, then the statement is stepped
/// once. The execution has succeeded where that step reports that the
/// statement is done; a row, or any other result code, is an error. Whatever
/// the step returned, the statement is reset before the execution ends.
pub open spec fn executing_advance(run: RunView<()>, reply: Option<ReplyView>) -> (
    RunView<()>,
    ProgressView<()>,
) {
    match run.stage {
        Stage::Stepping => match reply {
            Some(ReplyView::Code(code)) => if code == SQLITE_DONE {
                run.reset(Ok(()))
            } else {
                run.reset(Err(error_of_code(code)))
            },
            _ => run.reset(Err(RsqliteError::Misuse)),
        },
        Stage::Reading => run.finish(Err(RsqliteError::Misuse)),
        _ => run.advance_outside_rows(reply),
    }
}

/// The execution of a statement that is expected to produce no row.
pub struct Executing<'s> {
    run: Run<()>,
    guard: PhantomData<&'s ()>,
}

impl<'s> View for Executing<'s> {
    type V = RunView<()>;

    closed spec fn view(&self) -> RunView<()> {
        self.run@
    }
}

impl<'s> Executing<'s> {
    /// An execution that is to bind `params` from position 1 on; the range
    /// error where `params` has more parameters than there are positions.
    pub(crate) fn set_up<P: Bindable>(params: P) -> (execution: Result<Executing<'s>, RsqliteError>)
        ensures
            match execution {
                Ok(executing) => {
                    &&& params.params().len() < i32::MAX
                    &&& executing@ == RunView::<()>::fresh(placed(params.params(), 1))
                },
                Err(error) => params.params().len() >= i32::MAX && error == RsqliteError::Range,
            },
    {
        Ok(Executing { run: Run::new(queue(params)?), guard: PhantomData })
    }

    /// Takes the reply to what was asked for last, or `None` at the start,
    /// and says how the execution goes on.
    pub fn advance(&mut self, reply: Option<Reply>) -> (progress: Progress<()>)
        ensures
            final(self)@ == executing_advance(old(self)@, reply_view(reply)).0,
            progress_model(progress) == executing_advance(old(self)@, reply_view(reply)).1,
    {
        let stage = self.run.take_stage();
        match stage {
            Stage::Stepping => match reply {
                Some(Reply::Code(code)) => {
                    if code == SQLITE_DONE {
                        self.run.reset(Ok(()))
                    } else {
                        self.run.reset(Err(RsqliteError::from(code)))
                    }
                },
                _ => self.run.reset(Err(RsqliteError::Misuse)),
            },
            Stage::Reading => self.run.finish(Err(RsqliteError::Misuse)),
            other => self.run.advance_outside_rows(other, reply),
        }
    }
}

/// What collecting one row does with `reply`, for the target type `R`.
///
/// The parameters are bound in their order, then the statement is stepped
/// once. Where that step produces a row, the row is read, call by call, until
/// it holds all that a value of `R` needs, and the value is the result. Where
/// the statement is done without a row, the result is the value that `R` has
/// for "no row", and the not-found error where it has none. Any other result
/// code is the error that it stands for. Whatever the step returned, the
/// statement is reset before the collection ends.
pub open spec fn collecting_advance<R: Collectable>(
    run: RunView<R::Model>,
    reply: Option<ReplyView>,
) -> (RunView<R::Model>, ProgressView<R::Model>) {
    match run.stage {
        Stage::Stepping => match reply {
            Some(ReplyView::Code(code)) => collecting_settle::<R>(
                run.with_row(RowView::empty()),
                code,
            ),
            _ => run.reset(Err(RsqliteError::Misuse)),
        },
        Stage::Reading => match (reply, R::read(run.row, 0)) {
            (Some(answer), Read::Need(request)) => match run.row.put(request, answer) {
                Some(row) => collecting_settle::<R>(run.with_row(row), SQLITE_ROW),
                None => run.reset(Err(RsqliteError::Misuse)),
            },
            _ => run.reset(Err(RsqliteError::Misuse)),
        },
        _ => run.advance_outside_rows(reply),
    }
}

/// How collecting one row goes on after a step that returned `retcode`, with
/// what `run` knows of the row: it reads on where the row lacks something, and
/// resets the statement where the result stands.
pub open spec fn collecting_settle<R: Collectable>(run: RunView<R::Model>, retcode: i32) -> (
    RunView<R::Model>,
    ProgressView<R::Model>,
) {
    match stepped(retcode, R::read(run.row, 0), R::absent()) {
        Stepped::Settled(result) => run.reset(result),
        Stepped::Need(request) => run.ask(Stage::Reading, request),
    }
}

/// The collection of a single row as a value of the type `R`.
pub struct Collecting<'s, R> {
    run: Run<R>,
    guard: PhantomData<&'s ()>,
}

impl<'s, R: Collectable> View for Collecting<'s, R> {
    type V = RunView<R::Model>;

    closed spec fn view(&self) -> RunView<R::Model> {
        self.run@
    }
}

impl<'s, R: Collectable> Collecting<'s, R> {
    /// A collection that is to bind `params` from position 1 on; the range
    /// error where `params` has more parameters than there are positions.
    pub(crate) fn set_up<P: Bindable>(params: P) -> (collection: Result<
        Collecting<'s, R>,
        RsqliteError,
    >)
        ensures
            match collection {
                Ok(collecting) => {
                    &&& params.params().len() < i32::MAX
                    &&& collecting@ == RunView::<R::Model>::fresh(placed(params.params(), 1))
                },
                Err(error) => params.params().len() >= i32::MAX && error == RsqliteError::Range,
            },
    {
        Ok(Collecting { run: Run::new(queue(params)?), guard: PhantomData })
    }

    /// Takes the reply to what was asked for last, or `None` at the start,
    /// and says how the collection goes on.
    pub fn advance(&mut self, reply: Option<Reply>) -> (progress: Progress<R>)
        ensures
            final(self)@ == collecting_advance::<R>(old(self)@, reply_view(reply)).0,
            progress_model(progress) == collecting_advance::<R>(old(self)@, reply_view(reply)).1,
    {
        let stage = self.run.take_stage();
        match stage {
            Stage::Stepping => match reply {
                Some(Reply::Code(code)) => {
                    self.run.row = Row::new();
                    self.settle(code)
                },
                _ => self.run.reset(Err(RsqliteError::Misuse)),
            },
            Stage::Reading => match reply {
                Some(answer) => match R::step_and_collect(SQLITE_ROW, &self.run.row) {
                    Err(request) => {
                        if self.run.row.put(&request, answer) {
                            self.settle(SQLITE_ROW)
                        } else {
                            self.run.reset(Err(RsqliteError::Misuse))
                        }
                    },
                    Ok(_) => self.run.reset(Err(RsqliteError::Misuse)),
                },
                None => self.run.reset(Err(RsqliteError::Misuse)),
            },
            other => self.run.advance_outside_rows(other, reply),
        }
    }

    fn settle(&mut self, retcode: i32) -> (progress: Progress<R>)
        ensures
            final(self)@ == collecting_settle::<R>(old(self)@, retcode).0,
            progress_model(progress) == collecting_settle::<R>(old(self)@, retcode).1,
    {
        match R::step_and_collect(retcode, &self.run.row) {
            Ok(result) => self.run.reset(result),
            Err(request) => {
                self.run.stage = Stage::Reading;
                Progress::Ask(request)
            },
        }
    }
}

/// Where a visit stands after it has been advanced.
#[derive(Debug, PartialEq, Eq)]
pub struct Visit<T> {
    /// The row that the reply has completed, if it has completed one. It is
    /// handed out here once, and kept nowhere: the callback is to be called
    /// with it before `next` is followed.
    pub row: Option<T>,
    /// How the visit goes on.
    pub next: Progress<()>,
}

/// What a [`Visit`] is, over the model `M` of a row.
pub struct VisitView<M> {
    pub row: Option<M>,
    pub next: ProgressView<()>,
}

/// What `visit` is, over the model of its row.
pub open spec fn visit_model<T: Collectable>(visit: Visit<T>) -> VisitView<T::Model> {
    VisitView {
        row: match visit.row {
            Some(row) => Some(row.model()),
            None => None,
        },
        next: progress_model(visit.next),
    }
}

/// A step of a visit that hands out no row.
pub open spec fn without_row<M>(step: (RunView<()>, ProgressView<()>)) -> (
    RunView<()>,
    VisitView<M>,
) {
    (step.0, VisitView { row: None, next: step.1 })
}

/// What visiting all rows does with `reply`, for rows of the type `T`.
///
/// The parameters are bound in their order, then the statement is stepped
/// again and again. Each row that a step produces is read from its first
/// column, call by call, until it holds all that a value of `T` needs; the
/// value is handed out, and the statement is stepped on. The visit has
/// succeeded once a step reports that the statement is done; any other result
/// code is the error that it stands for. Whatever the last step returned, the
/// statement is reset before the visit ends.
pub open spec fn visiting_advance<T: Collectable>(run: RunView<()>, reply: Option<ReplyView>) -> (
    RunView<()>,
    VisitView<T::Model>,
) {
    match run.stage {
        Stage::Stepping => match reply {
            Some(ReplyView::Code(code)) => if code == SQLITE_ROW {
                visiting_read::<T>(run.with_row(RowView::empty()))
            } else if code == SQLITE_DONE {
                without_row(run.reset(Ok(())))
            } else {
                without_row(run.reset(Err(error_of_code(code))))
            },
            _ => without_row(run.reset(Err(RsqliteError::Misuse))),
        },
        Stage::Reading => match (reply, T::read(run.row, 0)) {
            (Some(answer), Read::Need(request)) => match run.row.put(request, answer) {
                Some(row) => visiting_read::<T>(run.with_row(row)),
                None => without_row(run.reset(Err(RsqliteError::Misuse))),
            },
            _ => without_row(run.reset(Err(RsqliteError::Misuse))),
        },
        _ => without_row(run.advance_outside_rows(reply)),
    }
}

/// How a visit goes on with what `run` knows of the current row: it reads on
/// where the row lacks something, and hands the row out and steps where it is
/// complete.
pub open spec fn visiting_read<T: Collectable>(run: RunView<()>) -> (
    RunView<()>,
    VisitView<T::Model>,
) {
    match T::read(run.row, 0) {
        Read::Got { value, next } => (
            run.at(Stage::Stepping),
            VisitView { row: Some(value), next: ProgressView::Ask(RequestView::Step) },
        ),
        Read::Need(request) => without_row(run.ask(Stage::Reading, request)),
    }
}

/// The visit of all the rows that a statement produces, each as a value of
/// the type `T`.
pub struct Visiting<'s, T> {
    run: Run<()>,
    guard: PhantomData<&'s ()>,
    rows: PhantomData<T>,
}

impl<'s, T: Collectable> View for Visiting<'s, T> {
    type V = RunView<()>;

    closed spec fn view(&self) -> RunView<()> {
        self.run@
    }
}

impl<'s, T: Collectable> Visiting<'s, T> {
    /// A visit that is to bind `params` from position 1 on; the range error
    /// where `params` has more parameters than there are positions.
    pub(crate) fn set_up<P: Bindable>(params: P) -> (visit: Result<Visiting<'s, T>, RsqliteError>)
        ensures
            match visit {
                Ok(visiting) => {
                    &&& params.params().len() < i32::MAX
                    &&& visiting@ == RunView::<()>::fresh(placed(params.params(), 1))
                },
                Err(error) => params.params().len() >= i32::MAX && error == RsqliteError::Range,
            },
    {
        Ok(Visiting { run: Run::new(queue(params)?), guard: PhantomData, rows: PhantomData })
    }

    /// Takes the reply to what was asked for last, or `None` at the start,
    /// and says how the visit goes on.
    pub fn advance(&mut self, reply: Option<Reply>) -> (visit: Visit<T>)
        ensures
            final(self)@ == visiting_advance::<T>(old(self)@, reply_view(reply)).0,
            visit_model(visit) == visiting_advance::<T>(old(self)@, reply_view(reply)).1,
    {
        let stage = self.run.take_stage();
        match stage {
            Stage::Stepping => match reply {
                Some(Reply::Code(code)) => {
                    if code == SQLITE_ROW {
                        self.run.row = Row::new();
                        self.read()
                    } else if code == SQLITE_DONE {
                        Visit { row: None, next: self.run.reset(Ok(())) }
                    } else {
                        Visit { row: None, next: self.run.reset(Err(RsqliteError::from(code))) }
                    }
                },
                _ => Visit { row: None, next: self.run.reset(Err(RsqliteError::Misuse)) },
            },
            Stage::Reading => match reply {
                Some(answer) => {
                    let mut column: i32 = 0;
                    match T::collect(&self.run.row, &mut column) {
                        Err(request) => {
                            if self.run.row.put(&request, answer) {
                                self.read()
                            } else {
                                Visit {
                                    row: None,
                                    next: self.run.reset(Err(RsqliteError::Misuse)),
                                }
                            }
                        },
                        Ok(_) => Visit {
                            row: None,
                            next: self.run.reset(Err(RsqliteError::Misuse)),
                        },
                    }
                },
                None => Visit { row: None, next: self.run.reset(Err(RsqliteError::Misuse)) },
            },
            other => Visit { row: None, next: self.run.advance_outside_rows(other, reply) },
        }
    }

    fn read(&mut self) -> (visit: Visit<T>)
        ensures
            final(self)@ == visiting_read::<T>(old(self)@).0,
            visit_model(visit) == visiting_read::<T>(old(self)@).1,
    {
        let mut column: i32 = 0;
        match T::collect(&self.run.row, &mut column) {
            Ok(row) => {
                self.run.stage = Stage::Stepping;
                Visit { row: Some(row), next: Progress::Ask(Request::Step) }
            },
            Err(request) => {
                self.run.stage = Stage::Reading;
                Visit { row: None, next: Progress::Ask(request) }
            },
        }
    }
}

/// A prepared statement, as the library knows it: the number of columns that
/// its rows have, which is asked of the engine once, when the statement is
/// prepared.
///
/// The statement cannot outlive the connection that it was prepared on, and
/// one operation at a time runs on it. Every operation that steps the
/// statement resets it before it ends, so the next one binds its parameters
/// on a statement that is reset. An operation that ends while its parameters
/// are bound leaves those in place that it has bound: they are not taken
/// back.
#[derive(Debug, PartialEq, Eq)]
pub struct Statement<'a> {
    column_count: i32,
    connection: PhantomData<&'a ()>,
}

impl<'a> Statement<'a> {
    /// The number of columns that the rows of the statement have.
    pub closed spec fn columns(&self) -> int {
        self.column_count as int
    }

    /// The statement that the engine has prepared on a connection, with
    /// `column_count` columns to its rows.
    pub(crate) fn prepared(column_count: i32) -> (statement: Statement<'a>)
        ensures
            statement.columns() == column_count,
    {
        Statement { column_count, connection: PhantomData }
    }

    /// The number of columns that the rows of the statement have.
    pub fn column_count(&self) -> (count: i32)
        ensures
            count == self.columns(),
    {
        self.column_count
    }

    /// Sets out to execute the statement with the parameters `params`, bound
    /// from position 1 on. No row is expected of it.
    ///
    /// Where `params` has more parameters than there are positions, this is
    /// the range error, and nothing is asked of the engine.
    pub fn execute<'s, P: Bindable>(&'s mut self, params: P) -> (execution: Result<
        Executing<'s>,
        RsqliteError,
    >)
        ensures
            match execution {
                Ok(executing) => {
                    &&& params.params().len() < i32::MAX
                    &&& executing@ == RunView::<()>::fresh(placed(params.params(), 1))
                },
                Err(error) => params.params().len() >= i32::MAX && error == RsqliteError::Range,
            },
            final(self).columns() == old(self).columns(),
    {
        Executing::set_up(params)
    }

    /// Sets out to collect the single row of the statement as a value of the
    /// type `R`, with the parameters `params`, bound from position 1 on.
    ///
    /// Where `R` needs more columns than the rows of the statement have, this
    /// is the range error, and nothing is asked of the engine: no parameter is
    /// bound and the statement is not stepped. It is the same where `R` needs
    /// more columns than a 32-bit offset counts, and where `params` has more
    /// parameters than there are positions.
    pub fn collect<'s, R: Collectable, P: Bindable>(&'s mut self, params: P) -> (collection:
        Result<Collecting<'s, R>, RsqliteError>)
        ensures
            match collection {
                Ok(collecting) => {
                    &&& !out_of_range(R::columns(), old(self).columns(), params.params().len())
                    &&& collecting@ == RunView::<R::Model>::fresh(placed(params.params(), 1))
                },
                Err(error) => {
                    &&& out_of_range(R::columns(), old(self).columns(), params.params().len())
                    &&& error == RsqliteError::Range
                },
            },
            final(self).columns() == old(self).columns(),
    {
        let needed: i32 = R::columns_needed();
        if needed > self.column_count || needed == i32::MAX {
            return Err(RsqliteError::Range);
        }
        Collecting::set_up(params)
    }

    /// Sets out to visit all the rows of the statement, each as a value of
    /// the type `T`, with the parameters `params`, bound from position 1 on.
    ///
    /// Where `T` needs more columns than the rows of the statement have, this
    /// is the range error, and nothing is asked of the engine: no parameter is
    /// bound and the statement is not stepped. It is the same where `T` needs
    /// more columns than a 32-bit offset counts, and where `params` has more
    /// parameters than there are positions.
    pub fn for_each<'s, T: Collectable, P: Bindable>(&'s mut self, params: P) -> (visit: Result<
        Visiting<'s, T>,
        RsqliteError,
    >)
        ensures
            match visit {
                Ok(visiting) => {
                    &&& !out_of_range(T::columns(), old(self).columns(), params.params().len())
                    &&& visiting@ == RunView::<()>::fresh(placed(params.params(), 1))
                },
                Err(error) => {
                    &&& out_of_range(T::columns(), old(self).columns(), params.params().len())
                    &&& error == RsqliteError::Range
                },
            },
            final(self).columns() == old(self).columns(),
    {
        let needed: i32 = T::columns_needed();
        if needed > self.column_count || needed == i32::MAX {
            return Err(RsqliteError::Range);
        }
        Visiting::set_up(params)
    }

    /// Gives the statement up. What is returned is the call that releases it;
    /// since the statement is gone with this, it is released once.
    pub fn finalize(self) -> (request: Request)
        ensures
            request@ == RequestView::Finalize,
    {
        Request::Finalize
    }
}

/// Whether a shape of `needed` columns with `params` parameters is out of
/// the range of a statement whose rows have `columns` columns: it is where the
/// shape needs more columns than the rows have. It also is where the columns
/// or the parameters are more than 32-bit numbers count, whatever the
/// statement.
pub open spec fn out_of_range(needed: nat, columns: int, params: nat) -> bool {
    ||| needed > columns
    ||| needed >= i32::MAX
    ||| params >= i32::MAX
}

/// The parameters of `params`, bound from position 1 on; the range error
/// where they are more than there are positions.
fn queue<P: Bindable>(params: P) -> (parameters: Result<VecDeque<Param>, RsqliteError>)
    ensures
        match parameters {
            Ok(queue) => {
                &&& params.params().len() < i32::MAX
                &&& param_views(queue@) == placed(params.params(), 1)
            },
            Err(error) => params.params().len() >= i32::MAX && error == RsqliteError::Range,
        },
{
    let mut parameters: VecDeque<Param> = VecDeque::new();
    let mut index: i32 = 1;
    params.bind(&mut parameters, &mut index)?;
    assert(param_views(Seq::<Param>::empty()) + placed(params.params(), 1).take(
        params.params().len() as int,
    ) =~= placed(params.params(), 1));
    Ok(parameters)
}

} // verus!
