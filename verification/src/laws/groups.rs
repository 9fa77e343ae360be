//! The list of groups: no group is left out, whatever became of the groups
//! before it.

use vstd::prelude::*;
use crate::failure::{failure_text, FailureView};
use crate::laws::turns::Turn;
use crate::notice::NoticeView;
use crate::protocol::{quiet, ActionView, InputView, StepView};
use crate::request::group_request;
use crate::run::{initial_run, transition, Phase, RunView};
use crate::runner::{initial_runner, runner_transition, RunnerView};

verus! {

/// The state of a run over a list of groups that began in `r`, after the
/// first `k` of `turns`.
pub open spec fn runner_after(r: RunnerView, turns: Seq<Turn>, k: nat) -> RunnerView
    decreases k,
{
    if k == 0 {
        r
    } else {
        let before = runner_after(r, turns, (k - 1) as nat);
        runner_transition(before, turns[k - 1].input, turns[k - 1].now).0
    }
}

/// The step with which a run over a list of groups that began in `r`
/// answers turn `k` of `turns`, counted from 0.
pub open spec fn runner_step_at_turn(r: RunnerView, turns: Seq<Turn>, k: nat) -> StepView {
    runner_transition(runner_after(r, turns, k), turns[k as int].input, turns[k as int].now).1
}

/// The run over a list of groups begins with the read that resolves the
/// first group.
pub proof fn lemma_first_group_begins(api_key: Seq<char>, groups: Seq<Seq<char>>, now: int)
    requires
        groups.len() > 0,
    ensures
        runner_transition(initial_runner(api_key, groups), InputView::Begin, now).1 == quiet(
            ActionView::Get(group_request(api_key, groups[0])),
        ),
        runner_transition(initial_runner(api_key, groups), InputView::Begin, now).0.current == 0,
{
}

/// A turn changes neither the key nor the list of groups, and is done with
/// at most one group.
pub proof fn lemma_turn_keeps_groups(r: RunnerView, input: InputView, now: int)
    ensures
        runner_transition(r, input, now).0.api_key == r.api_key,
        runner_transition(r, input, now).0.groups == r.groups,
        r.current <= runner_transition(r, input, now).0.current <= r.current + 1,
{
}

/// Over any number of turns the key and the list of groups stay.
proof fn lemma_runner_keeps_groups(r: RunnerView, turns: Seq<Turn>, k: nat)
    ensures
        runner_after(r, turns, k).api_key == r.api_key,
        runner_after(r, turns, k).groups == r.groups,
    decreases k,
{
    if k > 0 {
        let last = (k - 1) as nat;
        lemma_runner_keeps_groups(r, turns, last);
        lemma_turn_keeps_groups(
            runner_after(r, turns, last),
            turns[last as int].input,
            turns[last as int].now,
        );
    }
}

/// A failure does not stop the list: whenever the run over a group ends
/// while another group waits, the same step reports the failure, if there
/// was one, as the last line, and asks for the read that resolves the next
/// group, whose run has thereby begun.
pub proof fn lemma_next_group_begins(r: RunnerView, input: InputView, now: int)
    requires
        r.current + 1 < r.groups.len(),
        transition(r.run, input, now).1.action is Finish,
    ensures
        runner_transition(r, input, now).1.action == ActionView::Get(
            group_request(r.api_key, r.groups[r.current as int + 1]),
        ),
        runner_transition(r, input, now).0 == (RunnerView {
            current: r.current + 1,
            run: RunView {
                phase: Phase::GroupRequested,
                ..initial_run(r.api_key, r.groups[r.current as int + 1])
            },
            ..r
        }),
        transition(r.run, input, now).1.action matches ActionView::Finish(Err(failure))
            ==> runner_transition(r, input, now).1.notices.last() == (NoticeView::Trouble {
            group_name: r.run.group_name,
            error: failure_text(failure),
        }),
{
}

/// A turn of a run changes neither its key nor the name of its group.
pub proof fn lemma_turn_keeps_names(s: RunView, input: InputView, now: int)
    ensures
        transition(s, input, now).0.api_key == s.api_key,
        transition(s, input, now).0.group_name == s.group_name,
{
}

/// The run over a list of groups works on the groups in their order: while
/// a group is left, the run in hand is over the group at the head of what
/// is left, under its name in the list and with the key of the whole run.
pub proof fn lemma_run_in_hand_is_over_current_group(
    api_key: Seq<char>,
    groups: Seq<Seq<char>>,
    turns: Seq<Turn>,
    k: nat,
)
    ensures
        ({
            let r = runner_after(initial_runner(api_key, groups), turns, k);
            r.current < groups.len() ==> r.run.group_name == groups[r.current as int]
                && r.run.api_key == api_key
        }),
    decreases k,
{
    if k > 0 {
        let last = (k - 1) as nat;
        let before = runner_after(initial_runner(api_key, groups), turns, last);
        lemma_run_in_hand_is_over_current_group(api_key, groups, turns, last);
        lemma_runner_keeps_groups(initial_runner(api_key, groups), turns, last);
        lemma_turn_keeps_groups(before, turns[last as int].input, turns[last as int].now);
        lemma_turn_keeps_names(before.run, turns[last as int].input, turns[last as int].now);
    }
}

/// No failure goes unreported: when the run over a group fails, the last
/// line of the same step reports trouble with that group, in the words of
/// the failure.
pub proof fn lemma_failure_is_reported(
    r: RunnerView,
    input: InputView,
    now: int,
    failure: FailureView,
)
    requires
        r.current < r.groups.len(),
        transition(r.run, input, now).1.action == ActionView::Finish(Err(failure)),
    ensures
        runner_transition(r, input, now).1.notices.len() > 0,
        runner_transition(r, input, now).1.notices.last() == (NoticeView::Trouble {
            group_name: r.run.group_name,
            error: failure_text(failure),
        }),
{
}

/// No group is left out: however the runs over the groups before it ended,
/// with or without failure, each group that the run over the list has come
/// to had the read that resolves it asked for.
pub proof fn lemma_every_group_is_begun(
    api_key: Seq<char>,
    groups: Seq<Seq<char>>,
    turns: Seq<Turn>,
    n: nat,
    g: nat,
)
    requires
        0 < n <= turns.len(),
        turns[0].input == InputView::Begin,
        g < groups.len(),
        g <= runner_after(initial_runner(api_key, groups), turns, n).current,
    ensures
        exists|k: nat|
            k < n && #[trigger] runner_step_at_turn(
                initial_runner(api_key, groups),
                turns,
                k,
            ).action == ActionView::Get(group_request(api_key, groups[g as int])),
    decreases n,
{
    let start = initial_runner(api_key, groups);
    let last = (n - 1) as nat;
    let before = runner_after(start, turns, last);
    lemma_runner_keeps_groups(start, turns, last);
    lemma_turn_keeps_groups(before, turns[last as int].input, turns[last as int].now);
    if last == 0 {
        lemma_first_group_begins(api_key, groups, turns[0].now);
    } else if g <= before.current {
        lemma_every_group_is_begun(api_key, groups, turns, last, g);
    } else {
        lemma_next_group_begins(before, turns[last as int].input, turns[last as int].now);
        assert(runner_step_at_turn(start, turns, last).action == ActionView::Get(
            group_request(api_key, groups[g as int]),
        ));
    }
}

/// The run over a list of groups never fails: it ends only when no group is
/// left, and then without failure.
pub proof fn lemma_runner_ends_without_failure(r: RunnerView, input: InputView, now: int)
    requires
        runner_transition(r, input, now).1.action is Finish,
    ensures
        runner_transition(r, input, now).1.action == ActionView::Finish(Ok(())),
        runner_transition(r, input, now).0.current >= r.groups.len(),
{
}

} // verus!
