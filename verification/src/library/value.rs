//! Values that cross the border to the database, and the errors of the
//! library.

use vstd::prelude::*;
use crate::model::{clone_opt_bytes, opt_bytes, opt_text};

verus! {

/// A value of the database: what is bound to a statement or read from a
/// column.
#[derive(Debug, PartialEq)]
pub enum Value {
    Null,
    Integer(i64),
    /// A real number, in thousandths.
    Real(i64),
    Text(String),
    Blob(Vec<u8>),
}

/// Mathematical value of a [`Value`].
pub enum ValueView {
    Null,
    Integer(i64),
    Real(i64),
    Text(Seq<char>),
    Blob(Seq<u8>),
}

impl View for Value {
    type V = ValueView;

    open spec fn view(&self) -> ValueView {
        match self {
            Value::Null => ValueView::Null,
            Value::Integer(i) => ValueView::Integer(*i),
            Value::Real(r) => ValueView::Real(*r),
            Value::Text(s) => ValueView::Text(s@),
            Value::Blob(b) => ValueView::Blob(b@),
        }
    }
}

/// Values of a sequence of database values, in order.
pub open spec fn value_views(s: Seq<Value>) -> Seq<ValueView> {
    s.map_values(|v: Value| v@)
}

/// Values of the rows of a result, in order.
pub open spec fn row_views(s: Seq<Vec<Value>>) -> Seq<Seq<ValueView>> {
    s.map_values(|r: Vec<Value>| value_views(r@))
}

impl ValueView {
    /// The database value of an optional text: the text, or null.
    pub open spec fn of_opt_text(o: Option<Seq<char>>) -> ValueView {
        match o {
            Some(s) => ValueView::Text(s),
            None => ValueView::Null,
        }
    }

    /// The database value of an optional number: the number, or null.
    pub open spec fn of_opt_int(o: Option<i32>) -> ValueView {
        match o {
            Some(n) => ValueView::Integer(n as i64),
            None => ValueView::Null,
        }
    }

    /// The database value of an optional byte string: the bytes, or null.
    pub open spec fn of_opt_blob(o: Option<Seq<u8>>) -> ValueView {
        match o {
            Some(b) => ValueView::Blob(b),
            None => ValueView::Null,
        }
    }

    /// The database value of a time in milliseconds: a real number of
    /// seconds.
    pub open spec fn of_millis(ms: u64) -> ValueView {
        ValueView::Real(if ms > i64::MAX { i64::MAX } else { ms as i64 })
    }
}

impl Value {
    /// A text.
    pub fn text(s: &String) -> (r: Value)
        ensures
            r@ == ValueView::Text(s@),
    {
        Value::Text(s.clone())
    }

    /// A text, or null.
    pub fn opt_text(o: &Option<String>) -> (r: Value)
        ensures
            r@ == ValueView::of_opt_text(opt_text(*o)),
    {
        match o {
            Some(s) => Value::Text(s.clone()),
            None => Value::Null,
        }
    }

    /// A number, or null.
    pub fn opt_int(o: Option<i32>) -> (r: Value)
        ensures
            r@ == ValueView::of_opt_int(o),
    {
        match o {
            Some(n) => Value::Integer(n as i64),
            None => Value::Null,
        }
    }

    /// A byte string, or null.
    pub fn opt_blob(o: &Option<Vec<u8>>) -> (r: Value)
        ensures
            r@ == ValueView::of_opt_blob(opt_bytes(*o)),
    {
        match clone_opt_bytes(o) {
            Some(b) => Value::Blob(b),
            None => Value::Null,
        }
    }

    /// A time in milliseconds, as a real number of seconds.
    pub fn millis(ms: u64) -> (r: Value)
        ensures
            r@ == ValueView::of_millis(ms),
    {
        if ms > i64::MAX as u64 {
            Value::Real(i64::MAX)
        } else {
            Value::Real(ms as i64)
        }
    }
}

/// What is wrong with a reply of the database.
#[derive(Debug, PartialEq, Eq, Structural, Clone, Copy)]
pub enum Malformation {
    /// The row has no column at this place.
    MissingColumn(usize),
    /// The column at this place is null where a value is due.
    NullColumn(usize),
    /// The column at this place holds a value of another type.
    WrongType(usize),
    /// A track names a source that the library does not know.
    UnknownSource,
    /// A track points to an album that is not stored.
    AlbumMissing,
    /// The reply does not fit the request: rows for a write, or none for a
    /// query.
    UnexpectedReply,
}

/// Why an operation of the library failed.
#[derive(Debug, PartialEq)]
pub enum LibraryError {
    /// The database refused the request; the text is its own, a violated
    /// constraint included.
    Storage(String),
    /// The task that owns the database is gone.
    ChannelClosed,
    /// The database answered what the library cannot read.
    Malformed(Malformation),
}

/// Mathematical value of a [`LibraryError`].
pub enum ErrorView {
    Storage(Seq<char>),
    ChannelClosed,
    Malformed(Malformation),
}

impl View for LibraryError {
    type V = ErrorView;

    open spec fn view(&self) -> ErrorView {
        match self {
            LibraryError::Storage(s) => ErrorView::Storage(s@),
            LibraryError::ChannelClosed => ErrorView::ChannelClosed,
            LibraryError::Malformed(m) => ErrorView::Malformed(*m),
        }
    }
}

impl ErrorView {
    /// The error in words: a refusal of the database in its own.
    pub open spec fn message(self) -> Seq<char> {
        match self {
            ErrorView::Storage(s) => s,
            ErrorView::ChannelClosed => "the library task is gone"@,
            ErrorView::Malformed(_) => "the database answered what cannot be read"@,
        }
    }
}

impl LibraryError {
    /// The error in words.
    pub fn to_string(&self) -> (r: String)
        ensures
            r@ == self@.message(),
    {
        match self {
            LibraryError::Storage(s) => s.clone(),
            LibraryError::ChannelClosed => "the library task is gone".to_owned(),
            LibraryError::Malformed(_) => "the database answered what cannot be read".to_owned(),
        }
    }
}

} // verus!
