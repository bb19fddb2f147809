//! The JSON array encoder: it takes what each poll of a row cursor produced
//! and answers with the next step, batching rows into chunks that
//! concatenate to one JSON array.

use vstd::prelude::*;
use crate::framing::{Framing, Input, Output, StreamState, ARRAY_CLOSE, ARRAY_OPEN, BATCH_ROWS, SEPARATOR};
use crate::poll::{CursorError, Polled};
use crate::user::User;

verus! {

/// The row limit bound to the query when the caller names none.
pub const DEFAULT_RESULTS: u32 = 10;

/// What the driver of the encoder does next.
#[derive(Debug)]
pub enum Step<E> {
    /// The row is buffered; poll the producer again at once.
    Continue,
    /// Hand this chunk to the consumer.
    Emit(Vec<u8>),
    /// Nothing to hand over yet; report not-ready and wait for the wake-up.
    Pending,
    /// Report this failure; the encoder is closed.
    Fail(CursorError<E>),
    /// The encoder was closed before; report exhaustion.
    Done,
}

impl<E> View for Step<E> {
    type V = Output;

    open spec fn view(&self) -> Output {
        match self {
            Step::Continue => Output::Continue,
            Step::Emit(chunk) => Output::Chunk(chunk@),
            Step::Pending => Output::Pending,
            Step::Fail(error) => Output::Failure(error.spec_kind()),
            Step::Done => Output::Done,
        }
    }
}

/// The input that the encoder sees in the outcome of serialising a row.
pub open spec fn row_input(encoded: Result<Vec<u8>, serde_json::Error>) -> Input {
    match encoded {
        Ok(bytes) => Input::Row(Some(bytes@)),
        Err(_) => Input::Row(None),
    }
}

/// The input that the encoder sees in one poll of its producer, where
/// `None` stands for a producer that was never assigned.
pub open spec fn poll_input<E>(polled: Option<Polled<User, E>>) -> Input {
    match polled {
        None => Input::Missing,
        Some(Polled::NotReady) => Input::NotReady,
        Some(Polled::Item(user)) => Input::Row(user.wire()),
        Some(Polled::Failed(_)) => Input::Failed,
        Some(Polled::Exhausted) => Input::Exhausted,
    }
}

/// The buffer and the position in the array.
struct Encoder {
    buf: Vec<u8>,
    rows: usize,
    state: StreamState,
}

impl View for Encoder {
    type V = Framing;

    closed spec fn view(&self) -> Framing {
        Framing { state: self.state, buffered: self.buf@, rows: self.rows as nat }
    }
}

impl Encoder {
    /// An encoder that has written nothing.
    fn new() -> (encoder: Encoder)
        ensures
            encoder@ == Framing::initial(),
    {
        Encoder { buf: Vec::new(), rows: 0, state: StreamState::Unstarted }
    }

    /// Writes the opening bracket if nothing has been written.
    fn open(&mut self)
        requires
            old(self)@.wf(),
            old(self)@.state != StreamState::Closed,
        ensures
            final(self)@ == old(self)@.opened(),
    {
        if self.state == StreamState::Unstarted {
            self.buf.push(ARRAY_OPEN);
            self.state = StreamState::FirstRecord;
            assert(self.buf@ =~= seq![ARRAY_OPEN]);
        }
    }

    /// Hands the buffer over and leaves it empty.
    fn take_chunk(&mut self) -> (chunk: Vec<u8>)
        ensures
            chunk@ == old(self)@.buffered,
            final(self)@ == old(self)@.flushed(),
    {
        let mut chunk: Vec<u8> = Vec::new();
        core::mem::swap(&mut chunk, &mut self.buf);
        self.rows = 0;
        chunk
    }

    /// Drops what is buffered and closes the encoder.
    fn abandon(&mut self)
        ensures
            final(self)@ == Framing::closed(),
    {
        self.buf.clear();
        self.rows = 0;
        self.state = StreamState::Closed;
    }

    /// Adds one serialised row to the buffer, after a comma unless it is
    /// the first, and flushes when the batch is full.
    fn add_row<E>(&mut self, row: Vec<u8>) -> (step: Step<E>)
        requires
            old(self)@.wf(),
            old(self)@.state == StreamState::FirstRecord || old(self)@.state
                == StreamState::AdditionalRecords,
        ensures
            final(self)@ == old(self)@.next(Input::Row(Some(row@))),
            step@ == old(self)@.output(Input::Row(Some(row@))),
    {
        let mut row = row;
        if self.state == StreamState::FirstRecord {
            self.state = StreamState::AdditionalRecords;
        } else {
            self.buf.push(SEPARATOR);
        }
        self.buf.append(&mut row);
        self.rows = self.rows + 1;
        if self.rows == BATCH_ROWS {
            Step::Emit(self.take_chunk())
        } else {
            Step::Continue
        }
    }

    /// Flushes the rows that wait, if any, when the producer has none ready.
    fn idle<E>(&mut self) -> (step: Step<E>)
        requires
            old(self)@.wf(),
            old(self)@.state == StreamState::FirstRecord || old(self)@.state
                == StreamState::AdditionalRecords,
        ensures
            final(self)@ == old(self)@.next(Input::NotReady),
            step@ == old(self)@.output(Input::NotReady),
    {
        if self.rows != 0 {
            Step::Emit(self.take_chunk())
        } else {
            Step::Pending
        }
    }

    /// Writes the closing bracket, flushes and closes.
    fn finish<E>(&mut self) -> (step: Step<E>)
        requires
            old(self)@.wf(),
            old(self)@.state == StreamState::FirstRecord || old(self)@.state
                == StreamState::AdditionalRecords,
        ensures
            final(self)@ == old(self)@.next(Input::Exhausted),
            step@ == old(self)@.output(Input::Exhausted),
    {
        self.buf.push(ARRAY_CLOSE);
        let chunk = self.take_chunk();
        self.state = StreamState::Closed;
        Step::Emit(chunk)
    }

    /// Buffers a row that was serialised, or abandons the array for one
    /// that was not.
    fn take_row<E>(&mut self, encoded: Result<Vec<u8>, serde_json::Error>) -> (step: Step<E>)
        requires
            old(self)@.wf(),
            old(self)@.state == StreamState::FirstRecord || old(self)@.state
                == StreamState::AdditionalRecords,
        ensures
            final(self)@ == old(self)@.next(row_input(encoded)),
            step@ == old(self)@.output(row_input(encoded)),
            encoded matches Err(error) ==> step == Step::<E>::Fail(
                CursorError::Serialization(error),
            ),
    {
        match encoded {
            Ok(row) => self.add_row(row),
            Err(error) => {
                self.abandon();
                Step::Fail(CursorError::Serialization(error))
            },
        }
    }

    /// The transition for a row whose serialisation was attempted.
    fn push_row<E>(&mut self, encoded: Result<Vec<u8>, serde_json::Error>) -> (step: Step<E>)
        requires
            old(self)@.wf(),
        ensures
            final(self)@ == old(self)@.next(row_input(encoded)),
            step@ == old(self)@.output(row_input(encoded)),
            final(self)@.wf(),
            old(self)@.state != StreamState::Closed ==> (encoded matches Err(error) ==> step
                == Step::<E>::Fail(CursorError::Serialization(error))),
    {
        if self.state == StreamState::Closed {
            return Step::Done;
        }
        self.open();
        self.take_row(encoded)
    }

    /// The transition for one poll of the producer.
    fn poll_next<E>(&mut self, polled: Option<Polled<User, E>>) -> (step: Step<E>)
        requires
            old(self)@.wf(),
        ensures
            final(self)@ == old(self)@.next(poll_input(polled)),
            step@ == old(self)@.output(poll_input(polled)),
            final(self)@.wf(),
            old(self)@.state != StreamState::Closed ==> (polled matches Some(Polled::Failed(error))
                ==> step == Step::Fail(CursorError::Driver(error))),
    {
        if self.state == StreamState::Closed {
            return Step::Done;
        }
        self.open();
        match polled {
            None => {
                self.abandon();
                Step::Fail(CursorError::UninitializedProducer)
            },
            Some(Polled::NotReady) => self.idle(),
            Some(Polled::Item(user)) => {
                let encoded = user.to_json();
                self.take_row(encoded)
            },
            Some(Polled::Failed(error)) => {
                self.abandon();
                Step::Fail(CursorError::Driver(error))
            },
            Some(Polled::Exhausted) => self.finish(),
        }
    }
}

/// An owning row cursor together with the encoder of its rows: the query
/// that the cursor runs, and the framing state of the array being written.
/// Its view is the framing state, which is well formed at all times.
pub struct ByteStream {
    sql: String,
    results: u32,
    encoder: Encoder,
}

impl View for ByteStream {
    type V = Framing;

    closed spec fn view(&self) -> Framing {
        self.encoder@
    }
}

impl ByteStream {
    #[verifier::type_invariant]
    spec fn inv(self) -> bool {
        self.encoder@.wf()
    }

    /// The SQL text that the cursor runs.
    pub closed spec fn sql_text(&self) -> Seq<char> {
        self.sql@
    }

    /// The row limit bound to the query's placeholder.
    pub closed spec fn row_limit(&self) -> u32 {
        self.results
    }

    /// A new encoder for the query `sql`, with `results` bound to its
    /// placeholder, or `DEFAULT_RESULTS` where none is given. The text is
    /// copied; nothing is written yet.
    pub fn new(sql: &str, results: Option<u32>) -> (stream: ByteStream)
        ensures
            stream@ == Framing::initial(),
            stream.sql_text() == sql@,
            stream.row_limit() == match results {
                Some(n) => n,
                None => DEFAULT_RESULTS,
            },
    {
        let limit: u32 = match results {
            Some(n) => n,
            None => DEFAULT_RESULTS,
        };
        ByteStream {
            sql: sql.to_owned(),
            results: limit,
            encoder: Encoder::new(),
        }
    }

    /// The SQL text that the cursor runs.
    pub fn sql(&self) -> (sql: &str)
        ensures
            sql@ == self.sql_text(),
    {
        self.sql.as_str()
    }

    /// The row limit bound to the query's placeholder.
    pub fn results(&self) -> (results: u32)
        ensures
            results == self.row_limit(),
    {
        self.results
    }

    /// Where the encoder stands.
    pub fn state(&self) -> (state: StreamState)
        ensures
            state == self@.state,
            self@.wf(),
    {
        proof {
            use_type_invariant(self);
        }
        self.encoder.state
    }

    /// Whether the array is finished or abandoned, so that the producer
    /// need not be polled again.
    pub fn is_closed(&self) -> (closed: bool)
        ensures
            closed == (self@.state == StreamState::Closed),
    {
        self.encoder.state == StreamState::Closed
    }

    /// Takes the outcome of serialising one row that the producer yielded.
    ///
    /// A closed encoder answers `Done` and stays as it is. Otherwise the
    /// opening bracket is written if it was not; a serialised row is
    /// buffered behind its separator, and the buffer is handed over once it
    /// holds `BATCH_ROWS` rows; a serialisation failure drops the buffer,
    /// closes the encoder and is reported with the error that was given.
    pub fn push_row<E>(&mut self, encoded: Result<Vec<u8>, serde_json::Error>) -> (step: Step<E>)
        ensures
            final(self)@ == old(self)@.next(row_input(encoded)),
            step@ == old(self)@.output(row_input(encoded)),
            old(self)@.wf(),
            final(self)@.wf(),
            final(self).sql_text() == old(self).sql_text(),
            final(self).row_limit() == old(self).row_limit(),
            old(self)@.state != StreamState::Closed ==> (encoded matches Err(error) ==> step
                == Step::<E>::Fail(CursorError::Serialization(error))),
    {
        proof {
            use_type_invariant(&*self);
        }
        // The encoder is moved out while it changes, so that `self` is well
        // formed at every point.
        let mut encoder = Encoder::new();
        core::mem::swap(&mut encoder, &mut self.encoder);
        let step = encoder.push_row(encoded);
        core::mem::swap(&mut encoder, &mut self.encoder);
        step
    }

    /// Takes what one poll of the producer brought, `None` standing for a
    /// producer that was never assigned, and answers with the next step.
    ///
    /// A closed encoder answers `Done` and stays as it is. Otherwise the
    /// opening bracket is written if it was not, and then: a row is
    /// serialised and buffered behind its separator, and the buffer is
    /// handed over once it holds `BATCH_ROWS` rows; not-ready hands over the
    /// buffer if it holds a row and is passed on if not; exhaustion writes
    /// the closing bracket, hands the buffer over and closes; a missing
    /// producer, a driver failure or a row without wire form drops the
    /// buffer, closes the encoder and is reported, the driver's error as it
    /// was given.
    pub fn poll_next<E>(&mut self, polled: Option<Polled<User, E>>) -> (step: Step<E>)
        ensures
            final(self)@ == old(self)@.next(poll_input(polled)),
            step@ == old(self)@.output(poll_input(polled)),
            old(self)@.wf(),
            final(self)@.wf(),
            final(self).sql_text() == old(self).sql_text(),
            final(self).row_limit() == old(self).row_limit(),
            old(self)@.state != StreamState::Closed ==> (polled matches Some(Polled::Failed(error))
                ==> step == Step::Fail(CursorError::Driver(error))),
    {
        proof {
            use_type_invariant(&*self);
        }
        let mut encoder = Encoder::new();
        core::mem::swap(&mut encoder, &mut self.encoder);
        let step = encoder.poll_next(polled);
        core::mem::swap(&mut encoder, &mut self.encoder);
        step
    }
}

} // verus!
