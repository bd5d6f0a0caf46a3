//! What is known of the row that a statement is positioned on.

use vstd::prelude::*;
use crate::protocol::{Reply, ReplyView, Request, RequestView};
use crate::value::{Value, ValueView};

verus! {

/// The current row of a statement, as far as it has been read.
///
/// A row is read one call at a time: a collector runs over what is known,
/// and where something is missing it says which call supplies it. For each
/// column the row keeps the storage class, once it has been asked for, and
/// the value, once it has been read.
#[derive(Debug)]
pub struct Row {
    classes: Vec<Option<i32>>,
    values: Vec<Option<Value>>,
}

/// What a [`Row`] is: the storage classes and the values that are known, each
/// by its 0-based column offset.
#[verifier::ext_equal]
pub struct RowView {
    pub classes: Map<int, i32>,
    pub values: Map<int, ValueView>,
}

impl RowView {
    /// The row of which nothing is known.
    pub open spec fn empty() -> RowView {
        RowView { classes: Map::empty(), values: Map::empty() }
    }

    /// The storage class of the column at `column`, if it is known.
    pub open spec fn class_at(self, column: int) -> Option<i32> {
        if self.classes.contains_key(column) {
            Some(self.classes[column])
        } else {
            None
        }
    }

    /// The value read from the column at `column`, if it has been read.
    pub open spec fn value_at(self, column: int) -> Option<ValueView> {
        if self.values.contains_key(column) {
            Some(self.values[column])
        } else {
            None
        }
    }

    /// This row after `reply` has answered `request`. A storage class answers
    /// `ColumnType`, and a value of the kind asked for answers `Column`, both
    /// for a column offset that is not negative; nothing else is an answer
    /// about a row.
    pub open spec fn put(self, request: RequestView, reply: ReplyView) -> Option<RowView> {
        match (request, reply) {
            (RequestView::ColumnType { column }, ReplyView::Code(class)) => if column >= 0 {
                Some(RowView { classes: self.classes.insert(column, class), values: self.values })
            } else {
                None
            },
            (RequestView::Column { column, kind }, ReplyView::Value(value)) => if column >= 0
                && value.kind() == Some(kind) {
                Some(RowView { classes: self.classes, values: self.values.insert(column, value) })
            } else {
                None
            },
            _ => None,
        }
    }
}

impl View for Row {
    type V = RowView;

    closed spec fn view(&self) -> RowView {
        RowView {
            classes: Map::new(
                |i: int| 0 <= i < self.classes@.len() && self.classes@[i] is Some,
                |i: int| self.classes@[i]->Some_0,
            ),
            values: Map::new(
                |i: int| 0 <= i < self.values@.len() && self.values@[i] is Some,
                |i: int| self.values@[i]->Some_0@,
            ),
        }
    }
}

impl Row {
    /// A row of which nothing is known yet.
    pub fn new() -> (row: Row)
        ensures
            row@ == RowView::empty(),
    {
        Row { classes: Vec::new(), values: Vec::new() }
    }

    /// The storage class of the column at `column`, if it is known.
    pub fn class(&self, column: i32) -> (class: Option<i32>)
        ensures
            class == self@.class_at(column as int),
    {
        if column < 0 {
            return None;
        }
        let at: usize = column as usize;
        if at < self.classes.len() {
            self.classes[at]
        } else {
            None
        }
    }

    /// The value read from the column at `column`, if it has been read.
    pub fn value(&self, column: i32) -> (value: Option<&Value>)
        ensures
            match value {
                Some(v) => self@.value_at(column as int) == Some(v@),
                None => self@.value_at(column as int) is None,
            },
    {
        if column < 0 {
            return None;
        }
        let at: usize = column as usize;
        if at < self.values.len() {
            self.values[at].as_ref()
        } else {
            None
        }
    }

    /// Takes `reply` as the answer to `request`, and says whether it is one.
    /// The row is unchanged where it is not.
    pub fn put(&mut self, request: &Request, reply: Reply) -> (stored: bool)
        ensures
            match old(self)@.put(request@, reply@) {
                Some(row) => stored && final(self)@ == row,
                None => !stored && final(self)@ == old(self)@,
            },
    {
        match request {
            Request::ColumnType { column } => match reply {
                Reply::Code(class) => {
                    if *column < 0 {
                        return false;
                    }
                    let at: usize = *column as usize;
                    while self.classes.len() <= at
                        invariant
                            self@ == old(self)@,
                        decreases at + 1 - self.classes.len(),
                    {
                        self.classes.push(None);
                    }
                    self.classes.set(at, Some(class));
                    true
                },
                Reply::Value(_) => false,
            },
            Request::Column { column, kind } => match reply {
                Reply::Value(value) => {
                    if *column < 0 {
                        return false;
                    }
                    let fits: bool = match value.kind() {
                        Some(k) => k == *kind,
                        None => false,
                    };
                    if !fits {
                        return false;
                    }
                    let at: usize = *column as usize;
                    while self.values.len() <= at
                        invariant
                            self@ == old(self)@,
                        decreases at + 1 - self.values.len(),
                    {
                        self.values.push(None);
                    }
                    self.values.set(at, Some(value));
                    true
                },
                Reply::Code(_) => false,
            },
            _ => false,
        }
    }
}

} // verus!
