//! The core of a typed binding layer for SQLite.
//!
//! Native values are turned into positional query parameters, and the columns
//! of a result row are turned back into native values, without reflection or
//! dynamic typing.
//!
//! Nothing here calls the engine. Each operation (opening a connection,
//! preparing a statement, executing, collecting one row, visiting all rows) is
//! a small state machine: it says which engine call to make next, as a
//! [`Request`], and is told what the call returned, as a [`Reply`]. The program
//! that embeds this crate owns the native handles, makes the calls and feeds
//! the replies back until the operation is [`Progress::Done`].
//!
//! ```ignore
//! let mut collection = database.collect::<(i32, String), _>("select age, name from user", ())?;
//! let mut reply = None;
//! let row = loop {
//!     match collection.advance(reply) {
//!         Progress::Ask(request) => reply = Some(engine.perform(request)),
//!         Progress::Done(result) => break result?,
//!     }
//! };
//! ```
//!
//! Values are bound by [`Bindable`] and collected by [`Collectable`]: 32-bit
//! and 64-bit integers, double-precision numbers (as [`Double`]), text, bytes,
//! optional values, the unit value, and tuples of up to thirteen of these.
//! What holds of them all is proved in [`laws`].

pub mod bindable;
pub mod codes;
pub mod collectable;
pub mod database;
pub mod error;
pub mod iterable;
pub mod laws;
pub mod protocol;
pub mod row;
pub mod scoped;
pub mod statement;
pub mod text;
pub mod value;

pub use bindable::Bindable;
pub use collectable::Collectable;
pub use database::{Database, Opening, Preparing};
pub use error::RsqliteError;
pub use iterable::Iterable;
pub use protocol::{Progress, Reply, Request};
pub use row::Row;
pub use scoped::{CollectingOnce, ExecutingOnce, VisitingOnce};
pub use statement::{Collecting, Executing, Statement, Visit, Visiting};
pub use value::{Double, Kind, Param, Value};
