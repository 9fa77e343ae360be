//! The pause between two submissions.

use vstd::prelude::*;
use crate::laws::submissions::lemma_submission_only_for_upcoming_event;
use crate::laws::turns::{lemma_over_stays_over, state_after, step_at_turn, Turn};
use crate::protocol::ActionView;
use crate::run::RunView;
use crate::schedule::PACING_SECONDS;

verus! {

/// Pacing: between two submissions of one run lies a pause. The step that
/// follows a submission asks for a sleep of [`PACING_SECONDS`], whatever the
/// submission's fate, and only after it can another submission come.
pub proof fn lemma_pause_between_submissions(s: RunView, turns: Seq<Turn>, i: nat, j: nat)
    requires
        i < j < turns.len(),
        step_at_turn(s, turns, i).action is Post,
        step_at_turn(s, turns, j).action is Post,
    ensures
        i + 1 < j,
        step_at_turn(s, turns, i + 1).action == (ActionView::Sleep {
            seconds: PACING_SECONDS as nat,
        }),
{
    let at_i = state_after(s, turns, i);
    lemma_submission_only_for_upcoming_event(at_i, turns[i as int].input, turns[i as int].now);
    if !(turns[i as int + 1].input is Response) && j >= i + 2 {
        lemma_over_stays_over(s, turns, i + 2, j);
    }
}

} // verus!
