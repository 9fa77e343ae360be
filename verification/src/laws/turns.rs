//! Whole runs, turn by turn.
//!
//! A law about a whole run speaks of a sequence of [`Turn`]s: the inputs
//! that a caller hands to the run one after the other, each with the clock
//! reading of its moment. Nothing is asked of the caller unless a law says
//! so: the inputs may be any at all.

use vstd::prelude::*;
use crate::failure::FailureView;
use crate::protocol::{quiet, ActionView, InputView, StepView};
use crate::run::{finished, transition, Phase, RunView};

verus! {

/// One call of a run: what it is handed, and the clock reading at that
/// moment.
pub struct Turn {
    pub input: InputView,
    pub now: int,
}

/// The state of a run that began in `s`, after the first `k` of `turns`.
pub open spec fn state_after(s: RunView, turns: Seq<Turn>, k: nat) -> RunView
    decreases k,
{
    if k == 0 {
        s
    } else {
        let before = state_after(s, turns, (k - 1) as nat);
        transition(before, turns[k - 1].input, turns[k - 1].now).0
    }
}

/// The step with which a run that began in `s` answers turn `k` of `turns`,
/// counted from 0.
pub open spec fn step_at_turn(s: RunView, turns: Seq<Turn>, k: nat) -> StepView {
    transition(state_after(s, turns, k), turns[k as int].input, turns[k as int].now).1
}

/// The state after `k` turns, the first of which was already taken.
pub proof fn lemma_state_after_first_turn(s: RunView, turns: Seq<Turn>, k: nat)
    requires
        0 < k <= turns.len(),
    ensures
        state_after(s, turns, k) == state_after(
            transition(s, turns[0].input, turns[0].now).0,
            turns.subrange(1, turns.len() as int),
            (k - 1) as nat,
        ),
    decreases k,
{
    let next = transition(s, turns[0].input, turns[0].now).0;
    let rest = turns.subrange(1, turns.len() as int);
    if k == 1 {
        assert(state_after(s, turns, 0) == s);
        assert(state_after(next, rest, 0) == next);
    } else {
        lemma_state_after_first_turn(s, turns, (k - 1) as nat);
        assert(rest[k - 2] == turns[k - 1]);
    }
}

/// The run knows its events: it is looking at them, waits for the answer to
/// a submission, or is over.
pub open spec fn events_known(s: RunView) -> bool {
    s.phase == Phase::Examining || s.phase == Phase::RsvpRequested || s.phase == Phase::Done
}

/// The run has sent, or may yet send, submissions.
pub open spec fn submitting(s: RunView) -> bool {
    s.phase == Phase::Examining || s.phase == Phase::RsvpRequested
}

/// Once a run knows its events, a turn changes neither them nor the key nor
/// the group's identifier, and passes at most one event.
pub proof fn lemma_turn_keeps_events(s: RunView, input: InputView, now: int)
    requires
        events_known(s),
    ensures
        events_known(transition(s, input, now).0),
        transition(s, input, now).0.events == s.events,
        transition(s, input, now).0.api_key == s.api_key,
        transition(s, input, now).0.group_id == s.group_id,
        s.cursor <= transition(s, input, now).0.cursor <= s.cursor + 1,
        transition(s, input, now).0.cursor == s.cursor + 1 ==> s.phase == Phase::Examining
            && input == InputView::Resume && s.cursor < s.events.len(),
{
}

/// The same over any number of turns: from turn `i` to a later turn `j` the
/// events, the key and the group's identifier stay, and the count of passed
/// events does not fall.
pub proof fn lemma_turns_keep_events(s: RunView, turns: Seq<Turn>, i: nat, j: nat)
    requires
        i <= j,
        events_known(state_after(s, turns, i)),
    ensures
        events_known(state_after(s, turns, j)),
        state_after(s, turns, j).events == state_after(s, turns, i).events,
        state_after(s, turns, j).api_key == state_after(s, turns, i).api_key,
        state_after(s, turns, j).group_id == state_after(s, turns, i).group_id,
        state_after(s, turns, i).cursor <= state_after(s, turns, j).cursor,
    decreases j - i,
{
    if i < j {
        lemma_turns_keep_events(s, turns, i, (j - 1) as nat);
        let before = state_after(s, turns, (j - 1) as nat);
        lemma_turn_keeps_events(before, turns[j - 1].input, turns[j - 1].now);
    }
}

/// The input is what a run in the state `s` has asked for.
pub open spec fn in_turn(s: RunView, input: InputView) -> bool {
    match s.phase {
        Phase::Idle => input is Begin,
        Phase::GroupRequested => input is Response,
        Phase::GroupArrived => input is Group,
        Phase::EventsRequested => input is Response,
        Phase::EventsArrived => input is Events,
        Phase::Examining => input is Resume,
        Phase::RsvpRequested => input is Response,
        Phase::Backoff => input is Resume,
        Phase::Done => false,
    }
}

/// The first `n` of `turns` hand a run that began in `s` what it has asked
/// for, each in its turn, for as long as the run is not over.
pub open spec fn answered_in_turn(s: RunView, turns: Seq<Turn>, n: nat) -> bool {
    forall|k: nat|
        k < n ==> (#[trigger] state_after(s, turns, k)).phase == Phase::Done || in_turn(
            state_after(s, turns, k),
            turns[k as int].input,
        )
}

/// An input that the run has not asked for ends it with the failure of
/// being asked out of turn.
pub proof fn lemma_out_of_turn_ends_run(s: RunView, input: InputView, now: int)
    requires
        !in_turn(s, input),
    ensures
        transition(s, input, now) == finished(s, Err(FailureView::OutOfTurn)),
{
}

/// A run that is over stays over: from then on it answers every turn with
/// the failure of being asked out of turn, and with nothing else.
pub proof fn lemma_over_stays_over(s: RunView, turns: Seq<Turn>, i: nat, j: nat)
    requires
        i <= j,
        state_after(s, turns, i).phase == Phase::Done,
    ensures
        state_after(s, turns, j).phase == Phase::Done,
        step_at_turn(s, turns, j) == quiet(ActionView::Finish(Err(FailureView::OutOfTurn))),
    decreases j - i,
{
    if i < j {
        lemma_over_stays_over(s, turns, i, (j - 1) as nat);
    }
}

/// The clock is consulted only for an event: unless the run is handed the
/// word to resume while it has an event to look at, its answer is the same
/// at every clock reading.
pub proof fn lemma_clock_matters_only_for_events(s: RunView, input: InputView, a: int, b: int)
    requires
        !(s.phase == Phase::Examining && input == InputView::Resume && s.cursor < s.events.len()),
    ensures
        transition(s, input, a) == transition(s, input, b),
{
}

} // verus!
