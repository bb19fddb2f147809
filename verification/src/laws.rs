//! What holds of every run of the encoder, proved over its model.

use vstd::prelude::*;
use crate::framing::{
    Framing, Input, Output, StreamState, ARRAY_CLOSE, ARRAY_OPEN, BATCH_ROWS, SEPARATOR,
};
use crate::user::User;

verus! {

/// Every row of `rows` behind a comma of its own.
pub open spec fn commas(rows: Seq<Seq<u8>>) -> Seq<u8>
    decreases rows.len(),
{
    if rows.len() == 0 {
        Seq::empty()
    } else {
        seq![SEPARATOR] + rows[0] + commas(rows.drop_first())
    }
}

/// The rows of `rows` with a comma between each two.
pub open spec fn joined(rows: Seq<Seq<u8>>) -> Seq<u8> {
    if rows.len() == 0 {
        Seq::empty()
    } else {
        rows[0] + commas(rows.drop_first())
    }
}

/// The JSON array whose elements are `rows`, in order, without whitespace.
pub open spec fn array_bytes(rows: Seq<Seq<u8>>) -> Seq<u8> {
    seq![ARRAY_OPEN] + joined(rows) + seq![ARRAY_CLOSE]
}

/// Whether an input is either not-ready or a row that has a wire form.
pub open spec fn row_or_wait(input: Input) -> bool {
    input is NotReady || input matches Input::Row(Some(_))
}

/// Whether a run meets nothing but rows that have a wire form and polls
/// that find the producer not ready.
pub open spec fn undisturbed(inputs: Seq<Input>) -> bool {
    forall|i: int| 0 <= i < inputs.len() ==> row_or_wait(#[trigger] inputs[i])
}

/// The wire forms of the rows among `inputs`, in order.
pub open spec fn rows_of(inputs: Seq<Input>) -> Seq<Seq<u8>>
    decreases inputs.len(),
{
    if inputs.len() == 0 {
        Seq::empty()
    } else {
        match inputs[0] {
            Input::Row(Some(row)) => seq![row] + rows_of(inputs.drop_first()),
            _ => rows_of(inputs.drop_first()),
        }
    }
}

/// What an encoder in state `m` still owes its consumer if `rows` are the
/// rows to come before the producer is exhausted.
pub open spec fn owed(m: Framing, rows: Seq<Seq<u8>>) -> Seq<u8> {
    match m.state {
        StreamState::Unstarted => array_bytes(rows),
        StreamState::FirstRecord => m.buffered + joined(rows) + seq![ARRAY_CLOSE],
        StreamState::AdditionalRecords => m.buffered + commas(rows) + seq![ARRAY_CLOSE],
        StreamState::Closed => Seq::empty(),
    }
}

/// Every transition keeps the encoder well formed.
pub proof fn lemma_next_is_well_formed(m: Framing, input: Input)
    requires
        m.wf(),
    ensures
        m.next(input).wf(),
{
    if m.state != StreamState::Closed {
        let open = m.opened();
        if let Input::Row(Some(row)) = input {
            assert(open.with_row(row).len() > 0);
        }
    }
}

/// The state only ever advances: no transition leads to an earlier state.
pub proof fn lemma_state_never_regresses(m: Framing, input: Input)
    ensures
        m.state.rank() <= m.next(input).state.rank(),
{
}

/// A closed encoder stays closed and emits nothing, whatever it is fed: it
/// answers every input with `Done`, so neither bracket is written again.
pub proof fn lemma_closed_is_terminal(m: Framing, inputs: Seq<Input>)
    requires
        m.state == StreamState::Closed,
    ensures
        m.run(inputs) == m,
        m.emitted(inputs) == Seq::<u8>::empty(),
        forall|i: int| 0 <= i < inputs.len() ==> m.output(#[trigger] inputs[i]) == Output::Done,
    decreases inputs.len(),
{
    if inputs.len() > 0 {
        lemma_closed_is_terminal(m, inputs.drop_first());
    }
}

/// Feeding one sequence of inputs and then another emits what the first
/// emits, followed by what the second emits from the state that the first
/// leads to.
pub proof fn lemma_emitted_in_parts(m: Framing, first: Seq<Input>, second: Seq<Input>)
    ensures
        m.run(first + second) == m.run(first).run(second),
        m.emitted(first + second) == m.emitted(first) + m.run(first).emitted(second),
    decreases first.len(),
{
    if first.len() == 0 {
        assert(first + second =~= second);
        assert(m.emitted(first) + m.emitted(second) =~= m.emitted(second));
    } else {
        let whole = first + second;
        assert(whole[0] == first[0]);
        assert(whole.drop_first() =~= first.drop_first() + second);
        let step = m.next(first[0]);
        lemma_emitted_in_parts(step, first.drop_first(), second);
        assert(m.emitted(whole) =~= m.emitted(first) + m.run(first).emitted(second));
    }
}

/// From any state that is not closed, a run of rows and not-ready polls
/// that ends in exhaustion emits exactly what the state owes.
pub proof fn lemma_run_pays_what_is_owed(m: Framing, inputs: Seq<Input>)
    requires
        m.wf(),
        m.state != StreamState::Closed,
        undisturbed(inputs),
    ensures
        m.emitted(inputs.push(Input::Exhausted)) == owed(m, rows_of(inputs)),
        m.run(inputs.push(Input::Exhausted)) == Framing::closed(),
    decreases inputs.len(),
{
    let whole = inputs.push(Input::Exhausted);
    let open = m.opened();
    if inputs.len() == 0 {
        assert(whole.drop_first() =~= Seq::<Input>::empty());
        assert(whole[0] == Input::Exhausted);
        let rest = m.next(whole[0]);
        assert(rest.emitted(whole.drop_first()) =~= Seq::<u8>::empty());
        assert(rest.run(whole.drop_first()) == rest);
        assert(m.run(whole) == Framing::closed());
        assert(rows_of(inputs) =~= Seq::<Seq<u8>>::empty());
        assert(m.emitted(whole) =~= owed(m, rows_of(inputs)));
    } else {
        let head = inputs[0];
        let tail = inputs.drop_first();
        assert(whole[0] == head);
        assert(whole.drop_first() =~= tail.push(Input::Exhausted));
        assert(undisturbed(tail)) by {
            assert forall|i: int| 0 <= i < tail.len() implies row_or_wait(#[trigger] tail[i]) by {
                assert(tail[i] == inputs[i + 1]);
            }
        }
        let step = m.next(head);
        lemma_next_is_well_formed(m, head);
        lemma_run_pays_what_is_owed(step, tail);
        assert(m.run(whole) == step.run(tail.push(Input::Exhausted)));
        let later = rows_of(tail);
        match head {
            Input::NotReady => {
                assert(rows_of(inputs) == later);
                assert(m.emitted(whole) =~= owed(m, later));
            },
            Input::Row(Some(row)) => {
                let rows = rows_of(inputs);
                assert(rows == seq![row] + later);
                assert(rows[0] == row);
                assert(rows.drop_first() =~= later);
                assert(m.emitted(whole) =~= owed(m, rows));
            },
            _ => {
                assert(false);
            },
        }
    }
}

/// Whatever the number of rows and however the producer's not-ready polls
/// fall between them, the chunks of a run that ends in exhaustion
/// concatenate to the JSON array of the rows in their order, and the
/// encoder ends closed.
pub proof fn lemma_chunks_form_the_array(inputs: Seq<Input>)
    requires
        undisturbed(inputs),
    ensures
        Framing::initial().emitted(inputs.push(Input::Exhausted)) == array_bytes(rows_of(inputs)),
        Framing::initial().run(inputs.push(Input::Exhausted)) == Framing::closed(),
{
    lemma_run_pays_what_is_owed(Framing::initial(), inputs);
}

/// A failure closes the encoder for good: from any state that is not
/// closed, a run that meets a missing producer, a driver failure or a row
/// without wire form reports that failure, and emits in total what it had
/// emitted before it, whatever is fed afterwards.
pub proof fn lemma_failure_is_terminal(
    m: Framing,
    before: Seq<Input>,
    failure: Input,
    after: Seq<Input>,
)
    requires
        failure is Missing || failure is Failed || failure == Input::Row(None),
    ensures
        m.run(before).state != StreamState::Closed ==> m.run(before).output(failure) is Failure,
        m.run(before.push(failure) + after).state == StreamState::Closed,
        m.emitted(before.push(failure) + after) == m.emitted(before),
{
    let at = m.run(before);
    let one = seq![failure];
    assert(before.push(failure) =~= before + one);
    assert(one.drop_first().len() == 0);
    assert(at.next(failure).run(one.drop_first()) == at.next(failure));
    assert(at.next(failure).emitted(one.drop_first()) == Seq::<u8>::empty());
    assert(at.run(one) == at.next(failure));
    assert(at.emitted(one) =~= at.output(failure).bytes());
    lemma_emitted_in_parts(m, before, one);
    lemma_emitted_in_parts(m, before + one, after);
    let closed = at.next(failure);
    lemma_closed_is_terminal(closed, after);
    assert(m.emitted(before.push(failure) + after) =~= m.emitted(before));
}

/// What the encoder sees when its producer yields `users` one after the
/// other without ever being not-ready.
pub open spec fn user_inputs(users: Seq<User>) -> Seq<Input> {
    Seq::new(users.len(), |i: int| Input::Row(users[i].wire()))
}

/// The wire forms of `users`, in order.
pub open spec fn user_rows(users: Seq<User>) -> Seq<Seq<u8>> {
    Seq::new(users.len(), |i: int| users[i].wire().unwrap())
}

/// For any number of records that have a wire form, the chunks of a run
/// over them concatenate to the JSON array of their objects, each with its
/// `id`, `name` and `email`, in the order of the rows.
pub proof fn lemma_users_form_the_array(users: Seq<User>)
    requires
        forall|i: int| 0 <= i < users.len() ==> (#[trigger] users[i]).wire() is Some,
    ensures
        undisturbed(user_inputs(users)),
        rows_of(user_inputs(users)) == user_rows(users),
        Framing::initial().emitted(user_inputs(users).push(Input::Exhausted)) == array_bytes(
            user_rows(users),
        ),
    decreases users.len(),
{
    let inputs = user_inputs(users);
    assert(undisturbed(inputs)) by {
        assert forall|i: int| 0 <= i < inputs.len() implies row_or_wait(#[trigger] inputs[i]) by {
            assert(users[i].wire() is Some);
        }
    }
    if users.len() == 0 {
        assert(rows_of(inputs) =~= user_rows(users));
    } else {
        let tail = users.drop_first();
        assert forall|i: int| 0 <= i < tail.len() implies (#[trigger] tail[i]).wire() is Some by {
            assert(tail[i] == users[i + 1]);
        }
        lemma_users_form_the_array(tail);
        assert(inputs.drop_first() =~= user_inputs(tail));
        assert(users[0].wire() is Some);
        assert(rows_of(inputs) =~= user_rows(users));
    }
    lemma_chunks_form_the_array(inputs);
}

/// One chunk together with the rows that went into it.
pub struct Batch {
    pub chunk: Seq<u8>,
    pub rows: Seq<Seq<u8>>,
}

/// Whether `chunk` is made of `rows` and of nothing else: the rows with
/// their commas, behind the opening bracket where the chunk starts the
/// array, and before the closing bracket where it ends the array.
pub open spec fn holds_rows(chunk: Seq<u8>, rows: Seq<Seq<u8>>) -> bool {
    ||| chunk == commas(rows)
    ||| chunk == seq![ARRAY_OPEN] + joined(rows)
    ||| chunk == commas(rows).push(ARRAY_CLOSE)
    ||| chunk == (seq![ARRAY_OPEN] + joined(rows)).push(ARRAY_CLOSE)
}

/// Whether `held` are the rows in the buffer of `m`.
pub open spec fn holds_buffer(m: Framing, held: Seq<Seq<u8>>) -> bool {
    &&& held.len() == m.rows
    &&& (m.buffered == commas(held) || m.buffered == seq![ARRAY_OPEN] + joined(held))
}

/// The chunks handed over while a sequence of inputs is fed in order, each
/// with the rows taken in since the chunk before it; `held` are the rows
/// taken in before the first input. The rows that a failure drops belong to
/// no chunk.
pub open spec fn batches(m: Framing, held: Seq<Seq<u8>>, inputs: Seq<Input>) -> Seq<Batch>
    decreases inputs.len(),
{
    if inputs.len() == 0 {
        Seq::empty()
    } else {
        let taken = match inputs[0] {
            Input::Row(Some(row)) if m.state != StreamState::Closed => held.push(row),
            _ => held,
        };
        let rest = inputs.drop_first();
        match m.output(inputs[0]) {
            Output::Chunk(chunk) => seq![Batch { chunk, rows: taken }] + batches(
                m.next(inputs[0]),
                Seq::empty(),
                rest,
            ),
            Output::Failure(_) => batches(m.next(inputs[0]), Seq::empty(), rest),
            _ => batches(m.next(inputs[0]), taken, rest),
        }
    }
}

/// The chunks of `batches`, concatenated.
pub open spec fn chunks_of(batches: Seq<Batch>) -> Seq<u8>
    decreases batches.len(),
{
    if batches.len() == 0 {
        Seq::empty()
    } else {
        batches[0].chunk + chunks_of(batches.drop_first())
    }
}

/// A comma and a row behind the rows of `rows`, each behind its comma, are
/// the rows of `rows` and that row, each behind its comma.
pub proof fn lemma_commas_push(rows: Seq<Seq<u8>>, row: Seq<u8>)
    ensures
        commas(rows.push(row)) == commas(rows).push(SEPARATOR) + row,
        rows.len() > 0 ==> joined(rows.push(row)) == joined(rows).push(SEPARATOR) + row,
        rows.len() == 0 ==> joined(rows.push(row)) == row,
    decreases rows.len(),
{
    let more = rows.push(row);
    if rows.len() == 0 {
        assert(more.drop_first() =~= Seq::<Seq<u8>>::empty());
        assert(more[0] == row);
        assert(commas(more.drop_first()) =~= Seq::<u8>::empty());
        assert(commas(rows) =~= Seq::<u8>::empty());
        assert(commas(more) =~= commas(rows).push(SEPARATOR) + row);
        assert(joined(more) =~= row);
    } else {
        assert(more.drop_first() =~= rows.drop_first().push(row));
        lemma_commas_push(rows.drop_first(), row);
        assert(commas(more) =~= commas(rows).push(SEPARATOR) + row);
        assert(joined(more) =~= joined(rows).push(SEPARATOR) + row);
    }
}

/// Whether a batch is made of its rows and holds no more than `BATCH_ROWS`
/// of them.
pub open spec fn fits(batch: Batch) -> bool {
    batch.rows.len() <= BATCH_ROWS && holds_rows(batch.chunk, batch.rows)
}

/// A batch that fits, in front of batches that fit, gives batches that fit.
proof fn lemma_batch_in_front(first: Batch, later: Seq<Batch>)
    requires
        fits(first),
        forall|k: int| 0 <= k < later.len() ==> fits(#[trigger] later[k]),
    ensures
        forall|k: int| 0 <= k < later.len() + 1 ==> fits(#[trigger] (seq![first] + later)[k]),
        chunks_of(seq![first] + later) == first.chunk + chunks_of(later),
{
    let all = seq![first] + later;
    assert(all[0] == first);
    assert(all.drop_first() =~= later);
    assert forall|k: int| 0 <= k < later.len() + 1 implies fits(#[trigger] all[k]) by {
        if k > 0 {
            assert(all[k] == later[k - 1]);
        }
    }
}

/// However a run goes, every chunk that it hands over is made of the rows
/// taken in since the chunk before it, these are at most `BATCH_ROWS`, and
/// the chunks are the bytes that the run emits.
pub proof fn lemma_chunks_hold_at_most_a_batch(
    m: Framing,
    held: Seq<Seq<u8>>,
    inputs: Seq<Input>,
)
    requires
        m.wf(),
        holds_buffer(m, held),
    ensures
        forall|k: int|
            0 <= k < batches(m, held, inputs).len() ==> fits(#[trigger] batches(m, held, inputs)[k]),
        chunks_of(batches(m, held, inputs)) == m.emitted(inputs),
    decreases inputs.len(),
{
    if inputs.len() > 0 {
        let input = inputs[0];
        let rest = inputs.drop_first();
        let step = m.next(input);
        let none = Seq::<Seq<u8>>::empty();
        lemma_next_is_well_formed(m, input);
        assert(commas(none) =~= Seq::<u8>::empty());
        if m.state == StreamState::Closed {
            lemma_chunks_hold_at_most_a_batch(step, held, rest);
        } else {
            let open = m.opened();
            assert(holds_buffer(open, held)) by {
                if m.state == StreamState::Unstarted {
                    assert(held =~= none);
                    assert(open.buffered =~= seq![ARRAY_OPEN] + joined(held));
                }
            }
            let taken = match input {
                Input::Row(Some(row)) => held.push(row),
                _ => held,
            };
            if let Input::Row(Some(row)) = input {
                lemma_commas_push(held, row);
                let filled = open.with_row(row);
                assert(filled == commas(taken) || filled == seq![ARRAY_OPEN] + joined(taken)) by {
                    if open.state == StreamState::FirstRecord {
                        assert(held =~= none);
                        assert(filled =~= seq![ARRAY_OPEN] + joined(taken));
                    } else if open.buffered == commas(held) {
                        assert(filled =~= commas(taken));
                    } else {
                        assert(held.len() > 0);
                        assert(filled =~= seq![ARRAY_OPEN] + joined(taken));
                    }
                }
            }
            match m.output(input) {
                Output::Chunk(chunk) => {
                    let first = Batch { chunk, rows: taken };
                    lemma_chunks_hold_at_most_a_batch(step, none, rest);
                    lemma_batch_in_front(first, batches(step, none, rest));
                },
                Output::Failure(_) => {
                    lemma_chunks_hold_at_most_a_batch(step, none, rest);
                },
                _ => {
                    lemma_chunks_hold_at_most_a_batch(step, taken, rest);
                },
            }
        }
        assert(chunks_of(batches(m, held, inputs)) =~= m.emitted(inputs));
    }
}

} // verus!
