//! Which events are submitted, and how often.

use vstd::prelude::*;
use crate::laws::turns::{
    answered_in_turn, events_known, in_turn, lemma_state_after_first_turn, lemma_turn_keeps_events,
    lemma_turns_keep_events, state_after, step_at_turn, submitting, Turn,
};
use crate::model::EventView;
use crate::notice::NoticeView;
use crate::protocol::{quiet, saying, ActionView, InputView, StepView};
use crate::request::rsvp_request;
use crate::run::{initial_run, transition, Phase, RunView};
use crate::schedule::upcoming;

verus! {

/// In turn `k` the run looks at the event at index `m` of its list.
pub open spec fn looks_at(s: RunView, turns: Seq<Turn>, k: nat, m: nat) -> bool {
    let before = state_after(s, turns, k);
    &&& before.phase == Phase::Examining
    &&& before.cursor == m
    &&& m < before.events.len()
    &&& turns[k as int].input == InputView::Resume
}

/// What a run does with the event that it looks at: an upcoming event is
/// announced and submitted, any other is passed over in silence.
pub open spec fn verdict(s: RunView, event: nat, now: int) -> StepView {
    if upcoming(s.events[event as int].time, now) {
        saying(
            NoticeView::Announced { event_name: s.events[event as int].name },
            ActionView::Post(rsvp_request(s.api_key, s.group_id, s.events[event as int].id)),
        )
    } else {
        quiet(ActionView::Continue)
    }
}

/// No submission without an upcoming event: whenever a run answers with a
/// submission, it was looking at an event that is upcoming at that clock
/// reading, the submission is for that event under the group's resolved
/// identifier, and the event is passed. So an event that has begun is never
/// submitted.
pub proof fn lemma_submission_only_for_upcoming_event(s: RunView, input: InputView, now: int)
    requires
        transition(s, input, now).1.action is Post,
    ensures
        s.phase == Phase::Examining,
        input == InputView::Resume,
        s.cursor < s.events.len(),
        upcoming(s.events[s.cursor as int].time, now),
        transition(s, input, now).1.action == ActionView::Post(
            rsvp_request(s.api_key, s.group_id, s.events[s.cursor as int].id),
        ),
        transition(s, input, now).0.cursor == s.cursor + 1,
{
}

/// An event whose start, in whole seconds, is not after the clock reading is
/// passed over: nothing is printed, nothing is sent, and the run goes on to
/// the next event.
pub proof fn lemma_begun_event_is_passed_over(s: RunView, now: int)
    requires
        s.phase == Phase::Examining,
        s.cursor < s.events.len(),
        !upcoming(s.events[s.cursor as int].time, now),
    ensures
        transition(s, InputView::Resume, now) == (
            RunView { cursor: s.cursor + 1, ..s },
            quiet(ActionView::Continue),
        ),
{
}

/// An event whose start, in whole seconds, is after the clock reading is
/// announced and submitted, under the group's resolved identifier and its
/// own, and the run waits for the answer with the event passed.
pub proof fn lemma_upcoming_event_is_submitted(s: RunView, now: int)
    requires
        s.phase == Phase::Examining,
        s.cursor < s.events.len(),
        upcoming(s.events[s.cursor as int].time, now),
    ensures
        transition(s, InputView::Resume, now) == (
            RunView { cursor: s.cursor + 1, phase: Phase::RsvpRequested, ..s },
            saying(
                NoticeView::Announced { event_name: s.events[s.cursor as int].name },
                ActionView::Post(
                    rsvp_request(s.api_key, s.group_id, s.events[s.cursor as int].id),
                ),
            ),
        ),
{
}

/// No event is submitted twice: of two submissions in one run, the later is
/// for an event further down the same list, under the same key and the same
/// group identifier.
pub proof fn lemma_no_event_submitted_twice(s: RunView, turns: Seq<Turn>, i: nat, j: nat)
    requires
        i < j < turns.len(),
        step_at_turn(s, turns, i).action is Post,
        step_at_turn(s, turns, j).action is Post,
    ensures
        looks_at(s, turns, i, state_after(s, turns, i).cursor),
        looks_at(s, turns, j, state_after(s, turns, j).cursor),
        state_after(s, turns, i).cursor < state_after(s, turns, j).cursor,
        state_after(s, turns, j).events == state_after(s, turns, i).events,
        state_after(s, turns, j).api_key == state_after(s, turns, i).api_key,
        state_after(s, turns, j).group_id == state_after(s, turns, i).group_id,
{
    let at_i = state_after(s, turns, i);
    let at_j = state_after(s, turns, j);
    lemma_submission_only_for_upcoming_event(at_i, turns[i as int].input, turns[i as int].now);
    lemma_submission_only_for_upcoming_event(at_j, turns[j as int].input, turns[j as int].now);
    lemma_turns_keep_events(s, turns, i, i + 1);
    lemma_turns_keep_events(s, turns, i + 1, j);
}

/// Every event that a run has passed was looked at in exactly one turn.
/// With the two laws on what looking at an event leads to, this says that
/// each passed event was submitted exactly once if it was upcoming at the
/// clock reading of that turn, and not at all if it was not.
pub proof fn lemma_passed_event_looked_at_once(s: RunView, turns: Seq<Turn>, n: nat, m: nat)
    requires
        events_known(s),
        n <= turns.len(),
        s.cursor <= m < state_after(s, turns, n).cursor,
    ensures
        exists|k: nat| k < n && #[trigger] looks_at(s, turns, k, m),
        forall|k1: nat, k2: nat|
            k1 < n && k2 < n && #[trigger] looks_at(s, turns, k1, m) && #[trigger] looks_at(
                s,
                turns,
                k2,
                m,
            ) ==> k1 == k2,
    decreases n,
{
    let last = (n - 1) as nat;
    let before = state_after(s, turns, last);
    lemma_turns_keep_events(s, turns, 0, last);
    lemma_turn_keeps_events(before, turns[last as int].input, turns[last as int].now);
    if m < before.cursor {
        lemma_passed_event_looked_at_once(s, turns, last, m);
    } else {
        assert(looks_at(s, turns, last, m));
        assert forall|k: nat| k < last implies !#[trigger] looks_at(s, turns, k, m) by {
            if looks_at(s, turns, k, m) {
                let at_k = state_after(s, turns, k);
                lemma_turns_keep_events(s, turns, 0, k);
                lemma_turn_keeps_events(at_k, turns[k as int].input, turns[k as int].now);
                lemma_turns_keep_events(s, turns, k + 1, last);
            }
        }
    }
}

/// A run over known events that ends without failure has passed every
/// event of its list.
pub proof fn lemma_run_ends_past_last_event(s: RunView, input: InputView, now: int)
    requires
        events_known(s),
        transition(s, input, now).1.action == ActionView::Finish(Ok(())),
    ensures
        s.phase == Phase::Examining,
        input == InputView::Resume,
        s.cursor >= s.events.len(),
{
}

/// A run that has come to its end without failure has dealt with every
/// event that lay before it, each in exactly one turn: there the event was
/// submitted, under the group's resolved identifier and its own, if it was
/// upcoming at the clock reading of that turn, and passed over if it was
/// not.
pub proof fn lemma_completed_run_covers_every_event(
    s: RunView,
    turns: Seq<Turn>,
    n: nat,
    m: nat,
)
    requires
        events_known(s),
        n < turns.len(),
        step_at_turn(s, turns, n).action == ActionView::Finish(Ok(())),
        s.cursor <= m < s.events.len(),
    ensures
        exists|k: nat|
            k < n && #[trigger] looks_at(s, turns, k, m) && step_at_turn(s, turns, k) == verdict(
                s,
                m,
                turns[k as int].now,
            ),
        forall|k1: nat, k2: nat|
            k1 < n && k2 < n && #[trigger] looks_at(s, turns, k1, m) && #[trigger] looks_at(
                s,
                turns,
                k2,
                m,
            ) ==> k1 == k2,
{
    let last = state_after(s, turns, n);
    lemma_turns_keep_events(s, turns, 0, n);
    lemma_run_ends_past_last_event(last, turns[n as int].input, turns[n as int].now);
    lemma_passed_event_looked_at_once(s, turns, n, m);
    let k = choose|k: nat| k < n && #[trigger] looks_at(s, turns, k, m);
    lemma_turns_keep_events(s, turns, 0, k);
}

/// The most turns that a run over its events still takes: one to find the
/// list at its end, and for each event that is left one to look at it and
/// one to hear of its submission.
pub open spec fn turns_left(s: RunView) -> nat {
    let events_left = if s.cursor <= s.events.len() {
        (s.events.len() - s.cursor) as nat
    } else {
        0
    };
    if s.phase == Phase::RsvpRequested {
        2 * events_left + 2
    } else {
        2 * events_left + 1
    }
}

/// A run over its events comes to its end: when it is handed what it asks
/// for, each in its turn, it ends without failure within
/// [`turns_left`] turns, whatever the clock says and however the
/// submissions go.
pub proof fn lemma_run_over_events_ends(s: RunView, turns: Seq<Turn>)
    requires
        submitting(s),
        turns.len() >= turns_left(s),
        answered_in_turn(s, turns, turns_left(s)),
    ensures
        exists|n: nat|
            n < turns_left(s) && #[trigger] step_at_turn(s, turns, n) == quiet(
                ActionView::Finish(Ok(())),
            ),
    decreases turns_left(s),
{
    let (next, step) = transition(s, turns[0].input, turns[0].now);
    if step == quiet(ActionView::Finish(Ok(()))) {
        assert(step_at_turn(s, turns, 0) == step);
    } else {
        let rest = turns.subrange(1, turns.len() as int);
        assert forall|k: nat| k < turns_left(next) implies (#[trigger] state_after(
            next,
            rest,
            k,
        )).phase == Phase::Done || in_turn(state_after(next, rest, k), rest[k as int].input) by {
            lemma_state_after_first_turn(s, turns, k + 1);
        }
        lemma_run_over_events_ends(next, rest);
        let n = choose|n: nat|
            n < turns_left(next) && #[trigger] step_at_turn(next, rest, n) == quiet(
                ActionView::Finish(Ok(())),
            );
        lemma_state_after_first_turn(s, turns, n + 1);
        assert(step_at_turn(s, turns, n + 1) == step_at_turn(next, rest, n));
    }
}

/// The turn hands the run a decoded group with the identifier `id`.
pub open spec fn brings_group(turn: Turn, id: Seq<char>) -> bool {
    turn.input matches InputView::Group(Ok(group)) && group.id == id
}

/// The turn hands the run the decoded list `events`.
pub open spec fn brings_events(turn: Turn, events: Seq<EventView>) -> bool {
    turn.input == InputView::Events(Ok(events))
}

/// One of the first `k` of `turns` hands the run a decoded group with the
/// identifier `id`.
pub open spec fn group_was_brought(turns: Seq<Turn>, k: nat, id: Seq<char>) -> bool {
    exists|g: nat| g < k && #[trigger] brings_group(turns[g as int], id)
}

/// One of the first `k` of `turns` hands the run a decoded group with the
/// identifier `id`, and a later one of them the decoded list `events`.
pub open spec fn group_and_events_were_brought(
    turns: Seq<Turn>,
    k: nat,
    id: Seq<char>,
    events: Seq<EventView>,
) -> bool {
    exists|g: nat, e: nat|
        g < e < k && #[trigger] brings_group(turns[g as int], id) && #[trigger] brings_events(
            turns[e as int],
            events,
        )
}

/// What a run holds, it was handed. After any number of turns from its
/// beginning, the key and the name are those it began with; once it has
/// asked for the events, its group identifier is that of a decoded group it
/// was handed; and while it submits, its events are those of a decoded list
/// it was handed after that.
proof fn lemma_run_holds_what_it_was_handed(
    api_key: Seq<char>,
    group_name: Seq<char>,
    turns: Seq<Turn>,
    k: nat,
)
    requires
        k <= turns.len(),
    ensures
        ({
            let s = state_after(initial_run(api_key, group_name), turns, k);
            &&& s.api_key == api_key
            &&& s.group_name == group_name
            &&& s.phase == Phase::EventsRequested || s.phase == Phase::EventsArrived
                ==> group_was_brought(turns, k, s.group_id)
            &&& submitting(s) ==> group_and_events_were_brought(turns, k, s.group_id, s.events)
        }),
    decreases k,
{
    if k > 0 {
        let last = (k - 1) as nat;
        lemma_run_holds_what_it_was_handed(api_key, group_name, turns, last);
        let before = state_after(initial_run(api_key, group_name), turns, last);
        let after = state_after(initial_run(api_key, group_name), turns, k);
        if after.phase == Phase::EventsRequested {
            assert(brings_group(turns[last as int], after.group_id));
        } else if submitting(after) && before.phase == Phase::EventsArrived {
            assert(brings_events(turns[last as int], after.events));
        }
    }
}

/// Every submission of a run traces back to what the service said: the run
/// was first handed a decoded group and later a decoded list of events, and
/// the submission carries the key of the run, the identifier of that group,
/// and the identifier of an event of that list that is upcoming at the clock
/// reading of the submission's turn.
pub proof fn lemma_submission_traces_back(
    api_key: Seq<char>,
    group_name: Seq<char>,
    turns: Seq<Turn>,
    j: nat,
)
    requires
        j < turns.len(),
        step_at_turn(initial_run(api_key, group_name), turns, j).action is Post,
    ensures
        ({
            let s = state_after(initial_run(api_key, group_name), turns, j);
            &&& group_and_events_were_brought(turns, j, s.group_id, s.events)
            &&& s.cursor < s.events.len()
            &&& upcoming(s.events[s.cursor as int].time, turns[j as int].now)
            &&& step_at_turn(initial_run(api_key, group_name), turns, j).action
                == ActionView::Post(
                rsvp_request(api_key, s.group_id, s.events[s.cursor as int].id),
            )
        }),
{
    let s = state_after(initial_run(api_key, group_name), turns, j);
    lemma_submission_only_for_upcoming_event(s, turns[j as int].input, turns[j as int].now);
    lemma_run_holds_what_it_was_handed(api_key, group_name, turns, j);
}

} // verus!
