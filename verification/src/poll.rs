//! The vocabulary shared by every cursor: what one poll reports, and how an
//! operation can fail.

use vstd::prelude::*;

verus! {

/// What one poll of a cursor, or of the producer behind it, reports.
#[derive(Debug)]
pub enum Polled<T, E> {
    /// Nothing is available yet; poll again after the wake-up.
    NotReady,
    /// One item is ready.
    Item(T),
    /// The operation failed.
    Failed(E),
    /// Nothing more will come.
    Exhausted,
}

/// The ways in which a cursor fails, without what each failure carries.
#[derive(Clone, Copy, Debug, PartialEq, Eq, Structural)]
pub enum ErrorKind {
    /// A fetch failed at the storage layer.
    Driver,
    /// A record could not be turned into its wire form.
    Serialization,
    /// A single-row query matched no row.
    NotFound,
    /// The cursor was polled although it has no producer.
    UninitializedProducer,
}

/// A terminal failure of a cursor. `E` is the driver's own error type.
#[derive(Debug)]
pub enum CursorError<E> {
    /// A fetch failed at the storage layer; the driver's error is kept as is.
    Driver(E),
    /// A record could not be turned into its wire form.
    Serialization(serde_json::Error),
    /// A single-row query matched no row.
    NotFound,
    /// The cursor was polled although it has no producer: a fatal internal
    /// error, which a correctly constructed cursor never reports.
    UninitializedProducer,
}

impl<E> CursorError<E> {
    /// The kind of this failure.
    pub open spec fn spec_kind(&self) -> ErrorKind {
        match self {
            CursorError::Driver(_) => ErrorKind::Driver,
            CursorError::Serialization(_) => ErrorKind::Serialization,
            CursorError::NotFound => ErrorKind::NotFound,
            CursorError::UninitializedProducer => ErrorKind::UninitializedProducer,
        }
    }

    /// The kind of this failure.
    #[verifier::when_used_as_spec(spec_kind)]
    pub fn kind(&self) -> (kind: ErrorKind)
        ensures
            kind == self.spec_kind(),
    {
        match self {
            CursorError::Driver(_) => ErrorKind::Driver,
            CursorError::Serialization(_) => ErrorKind::Serialization,
            CursorError::NotFound => ErrorKind::NotFound,
            CursorError::UninitializedProducer => ErrorKind::UninitializedProducer,
        }
    }

    /// Whether the failure is the fatal internal one, as opposed to a
    /// failure of the storage layer or of a record.
    pub fn is_fatal(&self) -> (fatal: bool)
        ensures
            fatal == (self.kind() == ErrorKind::UninitializedProducer),
    {
        match self {
            CursorError::UninitializedProducer => true,
            _ => false,
        }
    }
}

} // verus!
