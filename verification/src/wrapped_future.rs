//! The owning future: a cursor over a query that yields exactly one row.

use vstd::prelude::*;
use crate::poll::{CursorError, Polled};

verus! {

/// The query of the owning future: the newest user of a given name.
pub const FETCH_ONE_SQL: &'static str =
    "SELECT id, name, email FROM users WHERE name = ? ORDER BY id DESC LIMIT 1";

/// What a `WrappedFuture` is, as plain values.
pub struct FutureModel {
    /// The SQL text of the query.
    pub sql: Seq<char>,
    /// The name bound to the query's placeholder.
    pub name: Seq<char>,
    /// Whether a poll has reached a terminal outcome.
    pub resolved: bool,
}

/// What an owning future answers to one poll of its producer, where `None`
/// stands for a producer that was never assigned: once resolved it reports
/// exhaustion; before that it passes on not-ready and the row, reports a
/// driver failure as such, and reports a query without rows as not found.
pub open spec fn future_outcome<T, E>(resolved: bool, polled: Option<Polled<T, E>>) -> Polled<
    T,
    CursorError<E>,
> {
    if resolved {
        Polled::Exhausted
    } else {
        match polled {
            None => Polled::Failed(CursorError::UninitializedProducer),
            Some(Polled::NotReady) => Polled::NotReady,
            Some(Polled::Item(row)) => Polled::Item(row),
            Some(Polled::Failed(error)) => Polled::Failed(CursorError::Driver(error)),
            Some(Polled::Exhausted) => Polled::Failed(CursorError::NotFound),
        }
    }
}

/// A single-row query that owns its text and its bound parameter, with the
/// record of whether it has resolved.
pub struct WrappedFuture {
    sql: String,
    name: String,
    resolved: bool,
}

impl View for WrappedFuture {
    type V = FutureModel;

    closed spec fn view(&self) -> FutureModel {
        FutureModel { sql: self.sql@, name: self.name@, resolved: self.resolved }
    }
}

impl WrappedFuture {
    /// A new query for the newest user called `name`. The name is copied.
    pub fn new(name: &str) -> (future: WrappedFuture)
        ensures
            future@ == (FutureModel { sql: FETCH_ONE_SQL@, name: name@, resolved: false }),
    {
        WrappedFuture { sql: FETCH_ONE_SQL.to_owned(), name: name.to_owned(), resolved: false }
    }

    /// The SQL text of the query.
    pub fn sql(&self) -> (sql: &str)
        ensures
            sql@ == self@.sql,
    {
        self.sql.as_str()
    }

    /// The name bound to the query's placeholder.
    pub fn name(&self) -> (name: &str)
        ensures
            name@ == self@.name,
    {
        self.name.as_str()
    }

    /// Whether a poll has reached a terminal outcome, so that the producer
    /// must not be polled again.
    pub fn is_resolved(&self) -> (resolved: bool)
        ensures
            resolved == self@.resolved,
    {
        self.resolved
    }

    /// Takes what one poll of the producer brought, `None` standing for a
    /// producer that was never assigned, and answers with the outcome of
    /// this poll. Every outcome but not-ready resolves the future; a
    /// resolved future answers every further poll with exhaustion.
    pub fn poll<T, E>(&mut self, polled: Option<Polled<T, E>>) -> (outcome: Polled<
        T,
        CursorError<E>,
    >)
        ensures
            outcome == future_outcome(old(self)@.resolved, polled),
            final(self)@.sql == old(self)@.sql,
            final(self)@.name == old(self)@.name,
            final(self)@.resolved == (old(self)@.resolved || !(outcome is NotReady)),
    {
        if self.resolved {
            return Polled::Exhausted;
        }
        match polled {
            Some(Polled::NotReady) => Polled::NotReady,
            Some(Polled::Item(row)) => {
                self.resolved = true;
                Polled::Item(row)
            },
            Some(Polled::Failed(error)) => {
                self.resolved = true;
                Polled::Failed(CursorError::Driver(error))
            },
            Some(Polled::Exhausted) => {
                self.resolved = true;
                Polled::Failed(CursorError::NotFound)
            },
            None => {
                self.resolved = true;
                Polled::Failed(CursorError::UninitializedProducer)
            },
        }
    }
}

} // verus!
