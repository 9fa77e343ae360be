//! What a read that did not succeed leads to.

use vstd::prelude::*;
use crate::failure::FailureView;
use crate::laws::turns::{lemma_over_stays_over, step_at_turn, Turn};
use crate::notice::{unknown_error, NoticeView};
use crate::protocol::{quiet, saying, ActionView, InputView, ReplyView};
use crate::retry::retry_delay;
use crate::run::{finished, transition, Phase, RunView};
use crate::status::{status_class, StatusClass, TOO_MANY_REQUESTS};

verus! {

/// A run that was asked to wait sends nothing more: whatever it is handed,
/// it answers every later turn by ending.
pub proof fn lemma_backoff_sends_nothing(s: RunView, turns: Seq<Turn>, k: nat)
    requires
        s.phase == Phase::Backoff,
    ensures
        step_at_turn(s, turns, k).action is Finish,
{
    if k > 0 {
        lemma_over_stays_over(s, turns, 1, k);
    }
}

/// A request to wait in answer to a read, be it the read of the group or
/// the read of its events: the run reports the wait that the response
/// names, or the default where it names none, asks for a sleep of that
/// length, and in no later turn asks for a submission or for anything else
/// but to end.
pub proof fn lemma_rate_limited_read(
    s: RunView,
    reply: ReplyView,
    now: int,
    turns: Seq<Turn>,
    k: nat,
)
    requires
        s.phase == Phase::GroupRequested || s.phase == Phase::EventsRequested,
        reply.status == TOO_MANY_REQUESTS,
    ensures
        transition(s, InputView::Response(Ok(reply)), now) == (
            RunView { phase: Phase::Backoff, ..s },
            saying(
                NoticeView::RateLimited { seconds: retry_delay(reply.retry_after) },
                ActionView::Sleep { seconds: retry_delay(reply.retry_after) },
            ),
        ),
        step_at_turn(transition(s, InputView::Response(Ok(reply)), now).0, turns, k).action
            is Finish,
        turns.len() > 0 && turns[0].input == InputView::Resume ==> step_at_turn(
            transition(s, InputView::Response(Ok(reply)), now).0,
            turns,
            0,
        ) == quiet(ActionView::Finish(Ok(()))),
{
    let waiting = transition(s, InputView::Response(Ok(reply)), now).0;
    lemma_backoff_sends_nothing(waiting, turns, k);
}

/// A read that ends with a status that is neither success nor a request to
/// wait: the run reports an unknown error for the group, under the name it
/// was asked for, and ends without failure. After the read of the group
/// this means that the events are never asked for.
pub proof fn lemma_refused_read_ends_run(s: RunView, reply: ReplyView, now: int)
    requires
        s.phase == Phase::GroupRequested || s.phase == Phase::EventsRequested,
        status_class(reply.status) == StatusClass::Other,
    ensures
        transition(s, InputView::Response(Ok(reply)), now) == (
            RunView { phase: Phase::Done, ..s },
            saying(
                NoticeView::Trouble { group_name: s.group_name, error: unknown_error() },
                ActionView::Finish(Ok(())),
            ),
        ),
{
}

/// A read or a decoding that fails outright fails the run with that very
/// failure, and nothing is printed by the run itself.
pub proof fn lemma_failure_fails_run(s: RunView, failure: FailureView, now: int)
    ensures
        s.phase == Phase::GroupRequested || s.phase == Phase::EventsRequested ==> transition(
            s,
            InputView::Response(Err(failure)),
            now,
        ) == finished(s, Err(failure)),
        s.phase == Phase::GroupArrived ==> transition(s, InputView::Group(Err(failure)), now)
            == finished(s, Err(failure)),
        s.phase == Phase::EventsArrived ==> transition(s, InputView::Events(Err(failure)), now)
            == finished(s, Err(failure)),
{
}

} // verus!
