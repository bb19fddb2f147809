//! The mathematical model of the JSON array encoder: its state, the
//! transition that one poll of the producer causes, and the bytes that a
//! whole run of polls emits.

use vstd::prelude::*;
use crate::poll::ErrorKind;

verus! {

/// The number of serialised rows at which a chunk is flushed.
pub const BATCH_ROWS: usize = 100;

/// `[`
pub const ARRAY_OPEN: u8 = 0x5b;

/// `]`
pub const ARRAY_CLOSE: u8 = 0x5d;

/// `,`
pub const SEPARATOR: u8 = 0x2c;

/// Where the encoder stands in the array it is writing.
#[derive(Clone, Copy, Debug, PartialEq, Eq, Structural)]
pub enum StreamState {
    /// Nothing has been written, not even the opening bracket.
    Unstarted,
    /// The opening bracket is written; the next row is the first.
    FirstRecord,
    /// At least one row is written; each further row follows a comma.
    AdditionalRecords,
    /// The array is finished or abandoned. Terminal.
    Closed,
}

impl StreamState {
    /// The position of the state in the order in which states are passed.
    pub open spec fn rank(self) -> nat {
        match self {
            StreamState::Unstarted => 0,
            StreamState::FirstRecord => 1,
            StreamState::AdditionalRecords => 2,
            StreamState::Closed => 3,
        }
    }
}

/// What one poll of the producer brought, as far as the encoder can tell.
pub enum Input {
    /// There is no producer to poll.
    Missing,
    /// No row is available yet.
    NotReady,
    /// A row, with its wire form if it has one.
    Row(Option<Seq<u8>>),
    /// The producer reported a failure.
    Failed,
    /// The producer has no more rows.
    Exhausted,
}

/// What the encoder answers to one input.
pub enum Output {
    /// The row is buffered; poll the producer again at once.
    Continue,
    /// Hand this chunk to the consumer.
    Chunk(Seq<u8>),
    /// Nothing to hand over yet; wait for the wake-up.
    Pending,
    /// Report this failure; the encoder is closed.
    Failure(ErrorKind),
    /// The encoder was closed before; there is nothing more.
    Done,
}

impl Output {
    /// The bytes that this answer hands to the consumer.
    pub open spec fn bytes(self) -> Seq<u8> {
        match self {
            Output::Chunk(chunk) => chunk,
            _ => Seq::empty(),
        }
    }
}

/// The state of the encoder between two polls.
pub struct Framing {
    pub state: StreamState,
    /// The bytes that wait for the next flush.
    pub buffered: Seq<u8>,
    /// The number of serialised rows among the buffered bytes.
    pub rows: nat,
}

impl Framing {
    /// The encoder before its first poll.
    pub open spec fn initial() -> Framing {
        Framing { state: StreamState::Unstarted, buffered: Seq::empty(), rows: 0 }
    }

    /// The encoder after the array is finished or abandoned.
    pub open spec fn closed() -> Framing {
        Framing { state: StreamState::Closed, buffered: Seq::empty(), rows: 0 }
    }

    /// What holds of the encoder between any two polls: the buffer never
    /// holds a full batch, holds nothing before the start and after the end,
    /// holds the opening bracket alone until the first row arrives, and
    /// afterwards holds bytes exactly when it holds rows.
    pub open spec fn wf(self) -> bool {
        &&& self.rows < BATCH_ROWS
        &&& match self.state {
            StreamState::Unstarted => self.buffered.len() == 0 && self.rows == 0,
            StreamState::FirstRecord => self.buffered == seq![ARRAY_OPEN] && self.rows == 0,
            StreamState::AdditionalRecords => (self.rows == 0 <==> self.buffered.len() == 0),
            StreamState::Closed => self.buffered.len() == 0 && self.rows == 0,
        }
    }

    /// The encoder once the opening bracket is written, if it was not.
    pub open spec fn opened(self) -> Framing {
        if self.state == StreamState::Unstarted {
            Framing { state: StreamState::FirstRecord, buffered: seq![ARRAY_OPEN], rows: 0 }
        } else {
            self
        }
    }

    /// The buffer after a row with wire form `row` has been added: the first
    /// row follows the bracket directly, every other row follows a comma.
    pub open spec fn with_row(self, row: Seq<u8>) -> Seq<u8> {
        if self.state == StreamState::FirstRecord {
            self.buffered + row
        } else {
            self.buffered.push(SEPARATOR) + row
        }
    }

    /// The encoder after its buffer has been handed over.
    pub open spec fn flushed(self) -> Framing {
        Framing { state: self.state, buffered: Seq::empty(), rows: 0 }
    }

    /// The state after one input.
    pub open spec fn next(self, input: Input) -> Framing {
        if self.state == StreamState::Closed {
            self
        } else {
            let open = self.opened();
            match input {
                Input::Missing | Input::Failed | Input::Exhausted | Input::Row(None) => Framing::closed(),
                Input::NotReady => if open.rows > 0 {
                    open.flushed()
                } else {
                    open
                },
                Input::Row(Some(row)) => if open.rows + 1 == BATCH_ROWS {
                    Framing {
                        state: StreamState::AdditionalRecords,
                        buffered: Seq::empty(),
                        rows: 0,
                    }
                } else {
                    Framing {
                        state: StreamState::AdditionalRecords,
                        buffered: open.with_row(row),
                        rows: open.rows + 1,
                    }
                },
            }
        }
    }

    /// The answer to one input.
    pub open spec fn output(self, input: Input) -> Output {
        if self.state == StreamState::Closed {
            Output::Done
        } else {
            let open = self.opened();
            match input {
                Input::Missing => Output::Failure(ErrorKind::UninitializedProducer),
                Input::Failed => Output::Failure(ErrorKind::Driver),
                Input::Row(None) => Output::Failure(ErrorKind::Serialization),
                Input::Exhausted => Output::Chunk(open.buffered.push(ARRAY_CLOSE)),
                Input::NotReady => if open.rows > 0 {
                    Output::Chunk(open.buffered)
                } else {
                    Output::Pending
                },
                Input::Row(Some(row)) => if open.rows + 1 == BATCH_ROWS {
                    Output::Chunk(open.with_row(row))
                } else {
                    Output::Continue
                },
            }
        }
    }

    /// The state after a sequence of inputs, fed in order.
    pub open spec fn run(self, inputs: Seq<Input>) -> Framing
        decreases inputs.len(),
    {
        if inputs.len() == 0 {
            self
        } else {
            self.next(inputs[0]).run(inputs.drop_first())
        }
    }

    /// All chunks handed over while a sequence of inputs is fed in order,
    /// concatenated.
    pub open spec fn emitted(self, inputs: Seq<Input>) -> Seq<u8>
        decreases inputs.len(),
    {
        if inputs.len() == 0 {
            Seq::empty()
        } else {
            self.output(inputs[0]).bytes() + self.next(inputs[0]).emitted(inputs.drop_first())
        }
    }
}

} // verus!
