//! Self-owning database cursors as explicit state machines, and an
//! incremental encoder that frames the rows of such a cursor as one JSON
//! array delivered in independently flushable chunks.
//!
//! The library holds the decisions; the asynchronous driver work (polling a
//! query, writing a response body) is done by the caller, which reports what
//! each poll produced and acts on the step it is handed back.

pub mod byte_stream;
pub mod framing;
pub mod json;
pub mod laws;
pub mod poll;
pub mod user;
pub mod wrapped_future;
pub mod wrapped_stream;

pub use byte_stream::{ByteStream, Step, DEFAULT_RESULTS};
pub use framing::{StreamState, BATCH_ROWS};
pub use poll::{CursorError, ErrorKind, Polled};
pub use user::User;
pub use wrapped_future::WrappedFuture;
pub use wrapped_stream::WrappedStream;
