//! The owning stream: a cursor over a query that yields its rows one by one.

use vstd::prelude::*;
use crate::poll::{CursorError, Polled};

verus! {

/// The query of the owning stream: the users whose name matches a pattern,
/// ordered by name.
pub const FETCH_SQL: &'static str =
    "SELECT id, name, email FROM users WHERE name LIKE ? ORDER BY name ASC";

/// What a `WrappedStream` is, as plain values.
pub struct StreamModel {
    /// The SQL text of the query.
    pub sql: Seq<char>,
    /// The pattern bound to the query's placeholder.
    pub name: Seq<char>,
    /// Whether the sequence has ended, by exhaustion or by a failure.
    pub finished: bool,
}

/// What an owning stream answers to one poll of its producer, where `None`
/// stands for a producer that was never assigned: once finished it reports
/// exhaustion; before that it passes on not-ready, each row and exhaustion,
/// and reports a driver failure as such.
pub open spec fn stream_outcome<T, E>(finished: bool, polled: Option<Polled<T, E>>) -> Polled<
    T,
    CursorError<E>,
> {
    if finished {
        Polled::Exhausted
    } else {
        match polled {
            None => Polled::Failed(CursorError::UninitializedProducer),
            Some(Polled::NotReady) => Polled::NotReady,
            Some(Polled::Item(row)) => Polled::Item(row),
            Some(Polled::Failed(error)) => Polled::Failed(CursorError::Driver(error)),
            Some(Polled::Exhausted) => Polled::Exhausted,
        }
    }
}

/// A row query that owns its text and its bound parameter, with the record
/// of whether its sequence has ended. The sequence cannot be restarted.
pub struct WrappedStream {
    sql: String,
    name: String,
    finished: bool,
}

impl View for WrappedStream {
    type V = StreamModel;

    closed spec fn view(&self) -> StreamModel {
        StreamModel { sql: self.sql@, name: self.name@, finished: self.finished }
    }
}

impl WrappedStream {
    /// A new query for the users whose name matches `name`. The pattern is
    /// copied.
    pub fn new(name: &str) -> (stream: WrappedStream)
        ensures
            stream@ == (StreamModel { sql: FETCH_SQL@, name: name@, finished: false }),
    {
        WrappedStream { sql: FETCH_SQL.to_owned(), name: name.to_owned(), finished: false }
    }

    /// The SQL text of the query.
    pub fn sql(&self) -> (sql: &str)
        ensures
            sql@ == self@.sql,
    {
        self.sql.as_str()
    }

    /// The pattern bound to the query's placeholder.
    pub fn name(&self) -> (name: &str)
        ensures
            name@ == self@.name,
    {
        self.name.as_str()
    }

    /// Whether the sequence has ended, so that the producer must not be
    /// polled again.
    pub fn is_finished(&self) -> (finished: bool)
        ensures
            finished == self@.finished,
    {
        self.finished
    }

    /// Takes what one poll of the producer brought, `None` standing for a
    /// producer that was never assigned, and answers with the outcome of
    /// this poll. Exhaustion and every failure end the sequence; a finished
    /// stream answers every further poll with exhaustion.
    pub fn poll_next<T, E>(&mut self, polled: Option<Polled<T, E>>) -> (outcome: Polled<
        T,
        CursorError<E>,
    >)
        ensures
            outcome == stream_outcome(old(self)@.finished, polled),
            final(self)@.sql == old(self)@.sql,
            final(self)@.name == old(self)@.name,
            final(self)@.finished == (old(self)@.finished || outcome is Failed
                || outcome is Exhausted),
    {
        if self.finished {
            return Polled::Exhausted;
        }
        match polled {
            Some(Polled::NotReady) => Polled::NotReady,
            Some(Polled::Item(row)) => Polled::Item(row),
            Some(Polled::Failed(error)) => {
                self.finished = true;
                Polled::Failed(CursorError::Driver(error))
            },
            Some(Polled::Exhausted) => {
                self.finished = true;
                Polled::Exhausted
            },
            None => {
                self.finished = true;
                Polled::Failed(CursorError::UninitializedProducer)
            },
        }
    }
}

} // verus!
