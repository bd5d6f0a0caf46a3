//! Connections, and how they are opened and statements prepared on them.

use core::marker::PhantomData;
use vstd::prelude::*;
use vstd::utf8::encode_utf8;
use crate::codes::{SQLITE_OK, SQLITE_OPEN_CREATE, SQLITE_OPEN_READWRITE};
use crate::error::{error_of_code, RsqliteError};
use crate::protocol::{Progress, ProgressView, Reply, ReplyView, Request, RequestView, reply_view};
use crate::statement::Statement;
use crate::text::{c_string, is_first_zero, zero_free};

verus! {

/// An open connection, as the library knows it.
///
/// A value of this type comes only out of an [`Opening`] that has succeeded.
/// Statements borrow the connection that they are prepared on, so it is
/// closed, which takes it by value, only when the last of them is gone.
#[derive(Debug, PartialEq, Eq)]
pub struct Database {
    opened: (),
}

/// Where the opening of a connection stands: what it has asked for last.
pub enum OpeningStage {
    /// Nothing has been asked for yet.
    Fresh,
    /// The connection is being opened.
    Connecting,
    /// The connection is being closed again, after which the opening ends
    /// with this error.
    Closing(RsqliteError),
    /// The opening has ended.
    Finished,
}

/// What the opening of a connection is, at one moment.
pub struct OpeningView {
    /// The path of the database, as a C string; empty once it has been handed
    /// out.
    pub path: Seq<u8>,
    /// The mode in which the connection is opened.
    pub flags: i32,
    /// What the opening has asked for last.
    pub stage: OpeningStage,
}

impl OpeningView {
    /// An opening at `stage` that has handed out its path.
    pub open spec fn at(self, stage: OpeningStage) -> OpeningView {
        OpeningView { path: Seq::empty(), flags: self.flags, stage }
    }

    /// The opening closes what the engine may have left of the connection,
    /// and keeps `error` for the end.
    pub open spec fn close(self, error: RsqliteError) -> (OpeningView, ProgressView<()>) {
        (self.at(OpeningStage::Closing(error)), ProgressView::Ask(RequestView::Close))
    }

    /// What the opening does with `reply`.
    ///
    /// It asks for the connection to be opened. Where the engine reports
    /// success, the connection is the result. Where it does not, whatever
    /// handle the call has left is closed before the error of the call is the
    /// result. A reply out of turn ends the opening as a misuse, after the
    /// same release where a handle may exist.
    pub open spec fn advance(self, reply: Option<ReplyView>) -> (OpeningView, ProgressView<()>) {
        match self.stage {
            OpeningStage::Fresh => match reply {
                None => (
                    self.at(OpeningStage::Connecting),
                    ProgressView::Ask(RequestView::Open { path: self.path, flags: self.flags }),
                ),
                Some(_) => (
                    self.at(OpeningStage::Finished),
                    ProgressView::Done(Err(RsqliteError::Misuse)),
                ),
            },
            OpeningStage::Connecting => match reply {
                Some(ReplyView::Code(code)) => if code == SQLITE_OK {
                    (self.at(OpeningStage::Finished), ProgressView::Done(Ok(())))
                } else {
                    self.close(error_of_code(code))
                },
                _ => self.close(RsqliteError::Misuse),
            },
            OpeningStage::Closing(error) => (
                self.at(OpeningStage::Finished),
                ProgressView::Done(Err(error)),
            ),
            OpeningStage::Finished => (
                self.at(OpeningStage::Finished),
                ProgressView::Done(Err(RsqliteError::Misuse)),
            ),
        }
    }
}

/// What the opening `progress` stands at is; a connection has nothing to it
/// but that it is open.
pub open spec fn opening_model(progress: Progress<Database>) -> ProgressView<()> {
    match progress {
        Progress::Ask(request) => ProgressView::Ask(request@),
        Progress::Done(Ok(_)) => ProgressView::Done(Ok(())),
        Progress::Done(Err(error)) => ProgressView::Done(Err(error)),
    }
}

/// The opening of a connection.
pub struct Opening {
    path: Vec<u8>,
    flags: i32,
    stage: OpeningStage,
}

impl View for Opening {
    type V = OpeningView;

    closed spec fn view(&self) -> OpeningView {
        OpeningView { path: self.path@, flags: self.flags, stage: self.stage }
    }
}

impl Opening {
    /// Takes the reply to what was asked for last, or `None` at the start,
    /// and says how the opening goes on.
    pub fn advance(&mut self, reply: Option<Reply>) -> (progress: Progress<Database>)
        ensures
            final(self)@ == old(self)@.advance(reply_view(reply)).0,
            opening_model(progress) == old(self)@.advance(reply_view(reply)).1,
    {
        let mut path: Vec<u8> = Vec::new();
        core::mem::swap(&mut self.path, &mut path);
        let mut stage = OpeningStage::Finished;
        core::mem::swap(&mut self.stage, &mut stage);
        match stage {
            OpeningStage::Fresh => match reply {
                None => {
                    self.stage = OpeningStage::Connecting;
                    Progress::Ask(Request::Open { path, flags: self.flags })
                },
                Some(_) => Progress::Done(Err(RsqliteError::Misuse)),
            },
            OpeningStage::Connecting => match reply {
                Some(Reply::Code(code)) => {
                    if code == SQLITE_OK {
                        Progress::Done(Ok(Database { opened: () }))
                    } else {
                        self.stage = OpeningStage::Closing(RsqliteError::from(code));
                        Progress::Ask(Request::Close)
                    }
                },
                _ => {
                    self.stage = OpeningStage::Closing(RsqliteError::Misuse);
                    Progress::Ask(Request::Close)
                },
            },
            OpeningStage::Closing(error) => Progress::Done(Err(error)),
            OpeningStage::Finished => Progress::Done(Err(RsqliteError::Misuse)),
        }
    }
}

/// Where the preparing of a statement stands: what it has asked for last.
pub enum PreparingStage {
    /// Nothing has been asked for yet.
    Fresh,
    /// The statement is being compiled.
    Compiling,
    /// The columns of the compiled statement are being counted.
    Counting,
    /// The statement is being released again, after which the preparing ends
    /// with this error.
    Releasing(RsqliteError),
    /// The preparing has ended.
    Finished,
}

/// What the preparing of a statement is, at one moment.
pub struct PreparingView {
    /// The text of the statement, as a C string; empty once it has been
    /// handed out.
    pub sql: Seq<u8>,
    /// What the preparing has asked for last.
    pub stage: PreparingStage,
}

impl PreparingView {
    /// A preparing at `stage` that has handed out its text.
    pub open spec fn at(self, stage: PreparingStage) -> PreparingView {
        PreparingView { sql: Seq::empty(), stage }
    }

    /// The preparing releases what the engine may have left of the statement,
    /// and keeps `error` for the end.
    pub open spec fn release(self, error: RsqliteError) -> (PreparingView, ProgressView<int>) {
        (self.at(PreparingStage::Releasing(error)), ProgressView::Ask(RequestView::Finalize))
    }

    /// What the preparing does with `reply`.
    ///
    /// It asks for the text to be compiled. Where the engine reports success,
    /// it asks for the number of columns, once, and the statement with that
    /// number is the result. Where the engine does not, whatever handle the
    /// call has left is released at once, before the error of the call is the
    /// result. A reply out of turn ends the preparing as a misuse, after the
    /// same release where a handle may exist.
    pub open spec fn advance(self, reply: Option<ReplyView>) -> (PreparingView, ProgressView<int>) {
        match self.stage {
            PreparingStage::Fresh => match reply {
                None => (
                    self.at(PreparingStage::Compiling),
                    ProgressView::Ask(RequestView::Prepare { sql: self.sql }),
                ),
                Some(_) => (
                    self.at(PreparingStage::Finished),
                    ProgressView::Done(Err(RsqliteError::Misuse)),
                ),
            },
            PreparingStage::Compiling => match reply {
                Some(ReplyView::Code(code)) => if code == SQLITE_OK {
                    (
                        self.at(PreparingStage::Counting),
                        ProgressView::Ask(RequestView::ColumnCount),
                    )
                } else {
                    self.release(error_of_code(code))
                },
                _ => self.release(RsqliteError::Misuse),
            },
            PreparingStage::Counting => match reply {
                Some(ReplyView::Code(count)) => (
                    self.at(PreparingStage::Finished),
                    ProgressView::Done(Ok(count as int)),
                ),
                _ => self.release(RsqliteError::Misuse),
            },
            PreparingStage::Releasing(error) => (
                self.at(PreparingStage::Finished),
                ProgressView::Done(Err(error)),
            ),
            PreparingStage::Finished => (
                self.at(PreparingStage::Finished),
                ProgressView::Done(Err(RsqliteError::Misuse)),
            ),
        }
    }
}

/// What the preparing `progress` stands at is; of a statement, the number of
/// its columns.
pub open spec fn preparing_model(progress: Progress<Statement<'_>>) -> ProgressView<int> {
    match progress {
        Progress::Ask(request) => ProgressView::Ask(request@),
        Progress::Done(Ok(statement)) => ProgressView::Done(Ok(statement.columns())),
        Progress::Done(Err(error)) => ProgressView::Done(Err(error)),
    }
}

/// The preparing of a statement on a connection.
pub struct Preparing<'a> {
    sql: Vec<u8>,
    stage: PreparingStage,
    connection: PhantomData<&'a ()>,
}

impl<'a> View for Preparing<'a> {
    type V = PreparingView;

    closed spec fn view(&self) -> PreparingView {
        PreparingView { sql: self.sql@, stage: self.stage }
    }
}

impl<'a> Preparing<'a> {
    /// Takes the reply to what was asked for last, or `None` at the start,
    /// and says how the preparing goes on.
    pub fn advance(&mut self, reply: Option<Reply>) -> (progress: Progress<Statement<'a>>)
        ensures
            final(self)@ == old(self)@.advance(reply_view(reply)).0,
            preparing_model(progress) == old(self)@.advance(reply_view(reply)).1,
    {
        let mut sql: Vec<u8> = Vec::new();
        core::mem::swap(&mut self.sql, &mut sql);
        let mut stage = PreparingStage::Finished;
        core::mem::swap(&mut self.stage, &mut stage);
        match stage {
            PreparingStage::Fresh => match reply {
                None => {
                    self.stage = PreparingStage::Compiling;
                    Progress::Ask(Request::Prepare { sql })
                },
                Some(_) => Progress::Done(Err(RsqliteError::Misuse)),
            },
            PreparingStage::Compiling => match reply {
                Some(Reply::Code(code)) => {
                    if code == SQLITE_OK {
                        self.stage = PreparingStage::Counting;
                        Progress::Ask(Request::ColumnCount)
                    } else {
                        self.stage = PreparingStage::Releasing(RsqliteError::from(code));
                        Progress::Ask(Request::Finalize)
                    }
                },
                _ => {
                    self.stage = PreparingStage::Releasing(RsqliteError::Misuse);
                    Progress::Ask(Request::Finalize)
                },
            },
            PreparingStage::Counting => match reply {
                Some(Reply::Code(count)) => Progress::Done(Ok(Statement::prepared(count))),
                _ => {
                    self.stage = PreparingStage::Releasing(RsqliteError::Misuse);
                    Progress::Ask(Request::Finalize)
                },
            },
            PreparingStage::Releasing(error) => Progress::Done(Err(error)),
            PreparingStage::Finished => Progress::Done(Err(RsqliteError::Misuse)),
        }
    }
}

impl Database {
    /// Sets out to open the database at `path`, for reading and writing, and
    /// to create it if it does not exist.
    pub fn open(path: &str) -> (opening: Result<Opening, RsqliteError>)
        ensures
            match opening {
                Ok(opening) => {
                    &&& zero_free(encode_utf8(path@))
                    &&& opening@ == OpeningView {
                        path: encode_utf8(path@).push(0u8),
                        flags: SQLITE_OPEN_READWRITE | SQLITE_OPEN_CREATE,
                        stage: OpeningStage::Fresh,
                    }
                },
                Err(error) => {
                    &&& error matches RsqliteError::InvalidCString(position)
                    &&& is_first_zero(encode_utf8(path@), position as int)
                },
            },
    {
        Database::open_with_flags(path, SQLITE_OPEN_READWRITE | SQLITE_OPEN_CREATE)
    }

    /// Sets out to open the database at `path` in the mode `flags`.
    ///
    /// A path that holds a zero byte is refused here, before anything is
    /// asked of the engine.
    pub fn open_with_flags(path: &str, flags: i32) -> (opening: Result<Opening, RsqliteError>)
        ensures
            match opening {
                Ok(opening) => {
                    &&& zero_free(encode_utf8(path@))
                    &&& opening@ == OpeningView {
                        path: encode_utf8(path@).push(0u8),
                        flags,
                        stage: OpeningStage::Fresh,
                    }
                },
                Err(error) => {
                    &&& error matches RsqliteError::InvalidCString(position)
                    &&& is_first_zero(encode_utf8(path@), position as int)
                },
            },
    {
        let path = c_string(path)?;
        Ok(Opening { path, flags, stage: OpeningStage::Fresh })
    }

    /// Sets out to prepare the statement `sql` on this connection.
    ///
    /// Text that holds a zero byte is refused here, before anything is asked
    /// of the engine.
    pub fn prepare<'a>(&'a self, sql: &str) -> (preparing: Result<Preparing<'a>, RsqliteError>)
        ensures
            match preparing {
                Ok(preparing) => {
                    &&& zero_free(encode_utf8(sql@))
                    &&& preparing@ == PreparingView {
                        sql: encode_utf8(sql@).push(0u8),
                        stage: PreparingStage::Fresh,
                    }
                },
                Err(error) => {
                    &&& error matches RsqliteError::InvalidCString(position)
                    &&& is_first_zero(encode_utf8(sql@), position as int)
                },
            },
    {
        let sql = c_string(sql)?;
        Ok(Preparing { sql, stage: PreparingStage::Fresh, connection: PhantomData })
    }

    /// Gives the connection up. What is returned is the call that closes it;
    /// since the connection is gone with this, it is closed once.
    pub fn close(self) -> (request: Request)
        ensures
            request@ == RequestView::Close,
    {
        Request::Close
    }
}

} // verus!
