//! What holds of every session, whatever is done to it.
//!
//! A history is a sequence of steps: the commands issued against the
//! session and the two halves of each loop iteration, in the order in which
//! they took effect. The laws below speak of the state that a history
//! leaves behind.

use vstd::prelude::*;
use crate::error::SessionError;
use crate::event::EventModel;
use crate::model::SessionModel;

verus! {

/// One thing that happens to a session.
pub enum Step {
    /// The port was acquired.
    Start,
    /// A close request.
    Close,
    /// A write request with its payload.
    Write(Seq<u8>),
    /// The top of a loop iteration.
    Begin,
    /// The end of a loop iteration, with what the read produced.
    End(EventModel),
    /// A clear request.
    Clear,
    /// A save, with the outcome of its write and its dump flag.
    Save { written: bool, dump_after: bool },
}

impl Step {
    /// Whether the step empties the accumulator: a clear, or a save that
    /// wrote successfully and was asked to dump.
    pub open spec fn discards(self) -> bool {
        match self {
            Step::Clear => true,
            Step::Save { written, dump_after } => written && dump_after,
            _ => false,
        }
    }

    /// The state that the step makes of `before`.
    pub open spec fn apply(self, before: SessionModel) -> SessionModel {
        match self {
            Step::Start => before.started(),
            Step::Close => before.close_requested(),
            Step::Write(payload) => before.write_requested(payload),
            Step::Begin => before.begun(),
            Step::End(event) => before.ended(event),
            Step::Clear => before.cleared(),
            Step::Save { written, dump_after } => before.saved(written, dump_after),
        }
    }

    /// The bytes that the step adds to the accumulator.
    pub open spec fn received(self) -> Seq<u8> {
        match self {
            Step::End(event) => event.kept_bytes(),
            _ => Seq::empty(),
        }
    }

    /// The bytes that the step accepts into the write queue, taken in
    /// state `before`.
    pub open spec fn accepted(self, before: SessionModel) -> Seq<u8> {
        match self {
            Step::Write(payload) => if before.running {
                payload
            } else {
                Seq::empty()
            },
            _ => Seq::empty(),
        }
    }

    /// The bytes that the step hands to the port, taken in state `before`.
    pub open spec fn transmitted(self, before: SessionModel) -> Seq<u8> {
        match self {
            Step::Begin => before.next_action().wire_bytes(),
            _ => Seq::empty(),
        }
    }
}

/// The state after the whole history, starting from `origin`.
pub open spec fn state_after(origin: SessionModel, history: Seq<Step>) -> SessionModel
    decreases history.len(),
{
    if history.len() == 0 {
        origin
    } else {
        history.last().apply(state_after(origin, history.drop_last()))
    }
}

/// Whether no step of the history empties the accumulator.
pub open spec fn keeps_everything(history: Seq<Step>) -> bool {
    forall|i: int| 0 <= i < history.len() ==> !(#[trigger] history[i]).discards()
}

/// All bytes that the history's reads delivered, in arrival order.
pub open spec fn all_received(history: Seq<Step>) -> Seq<u8>
    decreases history.len(),
{
    if history.len() == 0 {
        Seq::empty()
    } else {
        all_received(history.drop_last()) + history.last().received()
    }
}

/// All bytes that the history's write requests got accepted, in request
/// order.
pub open spec fn all_accepted(origin: SessionModel, history: Seq<Step>) -> Seq<u8>
    decreases history.len(),
{
    if history.len() == 0 {
        Seq::empty()
    } else {
        all_accepted(origin, history.drop_last()) + history.last().accepted(
            state_after(origin, history.drop_last()),
        )
    }
}

/// All bytes that the history's iterations handed to the port, in the order
/// in which they went out.
pub open spec fn all_transmitted(origin: SessionModel, history: Seq<Step>) -> Seq<u8>
    decreases history.len(),
{
    if history.len() == 0 {
        Seq::empty()
    } else {
        all_transmitted(origin, history.drop_last()) + history.last().transmitted(
            state_after(origin, history.drop_last()),
        )
    }
}

/// As long as nothing empties it, the accumulator holds what it held at
/// the start followed by every delivered chunk, in arrival order: reads
/// only append, and no command reorders or drops a byte.
pub proof fn law_accumulator_is_concatenation(origin: SessionModel, history: Seq<Step>)
    requires
        keeps_everything(history),
    ensures
        state_after(origin, history).accumulated == origin.accumulated + all_received(history),
    decreases history.len(),
{
    if history.len() == 0 {
        assert(origin.accumulated =~= origin.accumulated + Seq::<u8>::empty());
    } else {
        let earlier = history.drop_last();
        assert forall|i: int| 0 <= i < earlier.len() implies !(#[trigger] earlier[i]).discards() by {
            assert(earlier[i] == history[i]);
        }
        law_accumulator_is_concatenation(origin, earlier);
        let before = state_after(origin, earlier);
        let last = history.last();
        assert(!last.discards());
        assert(last.apply(before).accumulated =~= before.accumulated + last.received());
        assert(state_after(origin, history).accumulated =~= origin.accumulated + all_received(
            history,
        ));
    }
}

/// Every byte that a write request got accepted is handed to the port
/// exactly once and in request order, or still waits in the queue: what
/// was queued at the start followed by what was accepted since equals what
/// went out followed by what is queued now. This holds wherever in an
/// iteration the loop stands when the write arrives.
pub proof fn law_writes_reach_port_once_in_order(origin: SessionModel, history: Seq<Step>)
    ensures
        origin.queue + all_accepted(origin, history) == all_transmitted(origin, history)
            + state_after(origin, history).queue,
    decreases history.len(),
{
    if history.len() == 0 {
        assert(origin.queue + Seq::<u8>::empty() =~= Seq::<u8>::empty() + origin.queue);
    } else {
        let earlier = history.drop_last();
        law_writes_reach_port_once_in_order(origin, earlier);
        let before = state_after(origin, earlier);
        let last = history.last();
        assert(before.queue + last.accepted(before) =~= last.transmitted(before) + last.apply(
            before,
        ).queue);
        assert(origin.queue + all_accepted(origin, history) =~= (origin.queue + all_accepted(
            origin,
            earlier,
        )) + last.accepted(before));
        assert(all_transmitted(origin, history) + state_after(origin, history).queue
            =~= all_transmitted(origin, earlier) + (last.transmitted(before) + last.apply(
            before,
        ).queue));
        assert(origin.queue + all_accepted(origin, history) =~= all_transmitted(origin, history)
            + state_after(origin, history).queue);
    }
}

/// A write request changes nothing but the end of the queue, and that only
/// while the session runs.
pub proof fn law_write_only_appends(before: SessionModel, payload: Seq<u8>)
    ensures
        before.write_requested(payload).running == before.running,
        before.write_requested(payload).accumulated == before.accumulated,
        before.running ==> before.write_requested(payload).queue == before.queue + payload,
        !before.running ==> before.write_requested(payload) == before,
{
}

/// A usage query right after a clear reports 0, whatever was held before.
pub proof fn law_usage_after_clear(before: SessionModel)
    ensures
        before.cleared().usage_result() == Ok::<u8, SessionError>(0),
{
}

/// After a save that was asked to dump, a usage query reports 0 if the
/// write succeeded and what it reported before the save if the write
/// failed; a non-empty accumulator reads 0 afterwards only through a
/// successful write with a dump.
pub proof fn law_usage_after_save(before: SessionModel, written: bool, dump_after: bool)
    ensures
        written && dump_after ==> before.saved(written, dump_after).usage_result() == Ok::<
            u8,
            SessionError,
        >(0),
        !written ==> before.saved(written, dump_after).usage_result() == before.usage_result(),
        before.accumulated.len() > 0 && before.saved(written, dump_after).usage_result() == Ok::<
            u8,
            SessionError,
        >(0) ==> written && dump_after,
{
}

/// A close request fails with `NotRunning` while nothing runs; while a
/// session runs it succeeds, and the close request after it fails with
/// `NotRunning`.
pub proof fn law_close_once(before: SessionModel)
    ensures
        !before.running ==> before.close_result() == Err::<(), SessionError>(
            SessionError::NotRunning,
        ),
        before.running ==> before.close_result() == Ok::<(), SessionError>(()),
        before.close_requested().close_result() == Err::<(), SessionError>(
            SessionError::NotRunning,
        ),
{
}

/// A close request leaves both buffers as they are.
pub proof fn law_close_keeps_buffers(before: SessionModel)
    ensures
        before.close_requested().queue == before.queue,
        before.close_requested().accumulated == before.accumulated,
{
}

/// As long as nothing empties the accumulator, a later usage query never
/// reports less than an earlier one: once a count was reported, every later
/// answer is a count at least as large or `Overflow`, and after `Overflow`
/// every later answer is `Overflow`.
pub proof fn law_usage_never_shrinks(origin: SessionModel, history: Seq<Step>)
    requires
        keeps_everything(history),
    ensures
        origin.accumulated.len() <= state_after(origin, history).accumulated.len(),
        match (origin.usage_result(), state_after(origin, history).usage_result()) {
            (Ok(earlier), Ok(later)) => earlier <= later,
            (Ok(_), Err(error)) => error == SessionError::Overflow,
            (Err(_), Ok(_)) => false,
            (Err(first), Err(second)) => first == SessionError::Overflow && second
                == SessionError::Overflow,
        },
{
    law_accumulator_is_concatenation(origin, history);
}

} // verus!
