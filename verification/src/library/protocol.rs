//! How a repository operation talks to the task that owns the database.
//!
//! An operation is a state machine. It starts with a request; whoever runs
//! it carries the request to the task as a command, waits for the one reply,
//! and resumes the operation with it, until the operation is done. The
//! operation itself never waits and never touches the database.

use vstd::prelude::*;
use crate::library::request::{Reply, ReplyView, Request, RequestView};
use crate::library::value::{row_views, ErrorView, LibraryError, Malformation, Value, ValueView};

verus! {

/// What an operation wants next.
#[derive(Debug, PartialEq)]
pub enum Step<T> {
    /// Send this request and resume with the reply.
    Ask(Request),
    /// The operation is over, with this result.
    Done(Result<T, LibraryError>),
}

/// Mathematical value of a [`Step`].
pub enum StepView<V> {
    Ask(RequestView),
    Done(Result<V, ErrorView>),
}

/// The rows of a reply to a query. A refusal of the database and the loss of
/// its task are errors of their own; a reply without rows is malformed.
pub open spec fn rows_of(reply: ReplyView) -> Result<Seq<Seq<ValueView>>, ErrorView> {
    match reply {
        ReplyView::Rows(rows) => Ok(rows),
        ReplyView::Done => Err(ErrorView::Malformed(Malformation::UnexpectedReply)),
        ReplyView::Failed(text) => Err(ErrorView::Storage(text)),
        ReplyView::Closed => Err(ErrorView::ChannelClosed),
    }
}

/// The error in a reply to a write, if it is one. A reply with rows is
/// malformed.
pub open spec fn refusal_of(reply: ReplyView) -> Option<ErrorView> {
    match reply {
        ReplyView::Done => None,
        ReplyView::Rows(_) => Some(ErrorView::Malformed(Malformation::UnexpectedReply)),
        ReplyView::Failed(text) => Some(ErrorView::Storage(text)),
        ReplyView::Closed => Some(ErrorView::ChannelClosed),
    }
}

/// Value of a result that holds rows.
pub open spec fn viewed_rows(r: Result<Vec<Vec<Value>>, LibraryError>) -> Result<
    Seq<Seq<ValueView>>,
    ErrorView,
> {
    match r {
        Ok(rows) => Ok(row_views(rows@)),
        Err(e) => Err(e@),
    }
}

/// Value of an optional error.
pub open spec fn viewed_refusal(r: Option<LibraryError>) -> Option<ErrorView> {
    match r {
        Some(e) => Some(e@),
        None => None,
    }
}

/// Takes the rows out of a reply to a query.
pub fn expect_rows(reply: Reply) -> (r: Result<Vec<Vec<Value>>, LibraryError>)
    ensures
        viewed_rows(r) == rows_of(reply@),
{
    match reply {
        Reply::Rows(rows) => Ok(rows),
        Reply::Done => Err(LibraryError::Malformed(Malformation::UnexpectedReply)),
        Reply::Failed(text) => Err(LibraryError::Storage(text)),
        Reply::Closed => Err(LibraryError::ChannelClosed),
    }
}

/// Takes the error out of a reply to a write.
pub fn expect_done(reply: Reply) -> (r: Option<LibraryError>)
    ensures
        viewed_refusal(r) == refusal_of(reply@),
{
    match reply {
        Reply::Done => None,
        Reply::Rows(_) => Some(LibraryError::Malformed(Malformation::UnexpectedReply)),
        Reply::Failed(text) => Some(LibraryError::Storage(text)),
        Reply::Closed => Some(LibraryError::ChannelClosed),
    }
}

/// Value of a step that ends with nothing but success.
pub open spec fn viewed_unit_step(step: Step<()>) -> StepView<()> {
    match step {
        Step::Ask(r) => StepView::Ask(r@),
        Step::Done(Ok(_)) => StepView::Done(Ok(())),
        Step::Done(Err(e)) => StepView::Done(Err(e@)),
    }
}

/// What a reply to a write comes to.
pub open spec fn written(reply: ReplyView) -> Result<(), ErrorView> {
    match refusal_of(reply) {
        None => Ok(()),
        Some(e) => Err(e),
    }
}

/// Writes by one request.
#[derive(Debug, PartialEq)]
pub struct Write {
    pub finished: bool,
}

impl Write {
    /// Starts the operation with a request that writes.
    pub fn start(request: Request) -> (r: (Write, Request))
        ensures
            !r.0.finished,
            r.1 == request,
    {
        (Write { finished: false }, request)
    }

    /// Resumes the operation with the reply to its request: it is then
    /// done.
    pub fn resume(&mut self, reply: Reply) -> (r: Step<()>)
        ensures
            final(self).finished,
            viewed_unit_step(r) == StepView::Done(
                if old(self).finished {
                    Err(ErrorView::Malformed(Malformation::UnexpectedReply))
                } else {
                    written(reply@)
                },
            ),
    {
        if self.finished {
            return Step::Done(Err(LibraryError::Malformed(Malformation::UnexpectedReply)));
        }
        self.finished = true;
        match expect_done(reply) {
            None => Step::Done(Ok(())),
            Some(e) => Step::Done(Err(e)),
        }
    }
}

/// The first of the items, if there is one.
pub fn into_first<T>(items: Vec<T>) -> (r: Option<T>)
    ensures
        r == if items@.len() > 0 {
            Some(items@[0])
        } else {
            None
        },
{
    let mut items = items;
    if items.len() > 0 {
        Some(items.swap_remove(0))
    } else {
        None
    }
}

} // verus!
