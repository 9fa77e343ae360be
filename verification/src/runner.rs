//! The run over a list of groups, one after the other.
//!
//! Each group gets a [`GroupRun`] of its own. When the run over a group
//! ends, with or without failure, the run over the next group begins: a
//! failure is reported and goes no further.

use vstd::prelude::*;
use crate::clock::unix_now;
use crate::failure::{failure_text, FailureView};
use crate::notice::{Notice, NoticeView};
use crate::protocol::{quiet, Action, ActionView, Input, InputView, Step, StepView};
use crate::run::{initial_run, transition, GroupRun, Phase, RunView};

verus! {

/// The state of a run over a list of groups.
pub struct Runner {
    api_key: String,
    groups: Vec<String>,
    current: usize,
    run: GroupRun,
}

/// A [`Runner`] as a mathematical value.
pub struct RunnerView {
    /// The key that the service knows the caller by.
    pub api_key: Seq<char>,
    /// The names of the groups, in the order in which they are worked on.
    pub groups: Seq<Seq<char>>,
    /// How many groups are done with.
    pub current: nat,
    /// The run over the group that is being worked on.
    pub run: RunView,
}

/// The names of a list, in the order of the list.
pub open spec fn names_view(names: Seq<String>) -> Seq<Seq<char>> {
    names.map_values(|name: String| name@)
}

impl View for Runner {
    type V = RunnerView;

    closed spec fn view(&self) -> RunnerView {
        RunnerView {
            api_key: self.api_key@,
            groups: names_view(self.groups@),
            current: self.current as nat,
            run: self.run@,
        }
    }
}

/// The name of the first group, or the empty name where there is no group.
pub open spec fn first_name(groups: Seq<Seq<char>>) -> Seq<char> {
    if groups.len() > 0 {
        groups[0]
    } else {
        Seq::empty()
    }
}

/// The run over the given groups, before its first step.
pub open spec fn initial_runner(api_key: Seq<char>, groups: Seq<Seq<char>>) -> RunnerView {
    RunnerView { api_key, groups, current: 0, run: initial_run(api_key, first_name(groups)) }
}

/// What is reported when the run over a group ends: trouble with the group
/// where it failed, nothing where it did not.
pub open spec fn closing_notices(
    group_name: Seq<char>,
    result: Result<(), FailureView>,
) -> Seq<NoticeView> {
    match result {
        Ok(_) => Seq::empty(),
        Err(failure) => seq![
            NoticeView::Trouble { group_name, error: failure_text(failure) },
        ],
    }
}

/// The state that follows `r` and the step that the run answers with, when
/// it is handed `input` at the clock reading `now`.
///
/// The input goes to the run over the current group. Where that run goes on,
/// so does this one. Where it ends, its failure, if any, is reported, and
/// the run over the next group begins in the same step; after the last
/// group the whole run ends, always without failure.
pub open spec fn runner_transition(r: RunnerView, input: InputView, now: int) -> (
    RunnerView,
    StepView,
) {
    if r.current >= r.groups.len() {
        (r, quiet(ActionView::Finish(Ok(()))))
    } else {
        let (run, step) = transition(r.run, input, now);
        match step.action {
            ActionView::Finish(result) => {
                let notices = step.notices + closing_notices(r.run.group_name, result);
                let next = r.current + 1;
                if next < r.groups.len() {
                    let (opened, first) = transition(
                        initial_run(r.api_key, r.groups[next as int]),
                        InputView::Begin,
                        now,
                    );
                    (
                        RunnerView { current: next, run: opened, ..r },
                        StepView { notices: notices + first.notices, action: first.action },
                    )
                } else {
                    (
                        RunnerView { current: next, run, ..r },
                        StepView { notices, action: ActionView::Finish(Ok(())) },
                    )
                }
            },
            _ => (RunnerView { run, ..r }, step),
        }
    }
}

impl Runner {
    /// A run over the given groups, in their order, with the key that the
    /// service knows the caller by.
    pub fn new(api_key: &str, groups: Vec<String>) -> (runner: Runner)
        ensures
            runner@ == initial_runner(api_key@, names_view(groups@)),
    {
        let run = if groups.len() > 0 {
            GroupRun::new(api_key, groups[0].as_str())
        } else {
            GroupRun::new(api_key, "")
        };
        proof {
            reveal_strlit("");
            assert(""@ =~= Seq::<char>::empty());
        }
        Runner { api_key: String::from_str(api_key), groups, current: 0, run }
    }

    /// How many groups are done with.
    pub fn groups_done(&self) -> (done: usize)
        ensures
            done == self@.current,
    {
        self.current
    }

    /// Whether every group is done with.
    pub fn is_done(&self) -> (done: bool)
        ensures
            done == (self@.current >= self@.groups.len()),
    {
        self.current >= self.groups.len()
    }

    /// Takes what the caller's last action brought back and says what to do
    /// next, looking at an event, where one is looked at, at the clock
    /// reading `now`: seconds since the epoch.
    pub fn step_at(&mut self, input: Input, now: i64) -> (out: Step)
        ensures
            (final(self)@, out@) == runner_transition(old(self)@, input@, now as int),
    {
        if self.current >= self.groups.len() {
            return Step::quiet(Action::Finish(Ok(())));
        }
        let step = self.run.step_at(input, now);
        let Step { notices, action } = step;
        match action {
            Action::Finish(result) => {
                let mut notices = notices;
                match result {
                    Ok(_) => {},
                    Err(failure) => {
                        notices.push(
                            Notice::Trouble {
                                group_name: String::from_str(self.run.group_name()),
                                error: failure.text(),
                            },
                        );
                    },
                }
                self.current = self.current + 1;
                if self.current < self.groups.len() {
                    self.run = GroupRun::new(
                        self.api_key.as_str(),
                        self.groups[self.current].as_str(),
                    );
                    let first = self.run.step_at(Input::Begin, now);
                    let out = Step { notices, action: first.action };
                    assert(out@.notices =~= runner_transition(
                        old(self)@,
                        input@,
                        now as int,
                    ).1.notices);
                    out
                } else {
                    let out = Step { notices, action: Action::Finish(Ok(())) };
                    assert(out@.notices =~= runner_transition(
                        old(self)@,
                        input@,
                        now as int,
                    ).1.notices);
                    out
                }
            },
            other => Step { notices, action: other },
        }
    }

    /// Takes what the caller's last action brought back and says what to do
    /// next. Where an event is looked at, the system clock is read for it.
    pub fn step(&mut self, input: Input) -> (out: Step)
        ensures
            exists|now: i64|
                (final(self)@, out@) == #[trigger] runner_transition(
                    old(self)@,
                    input@,
                    now as int,
                ),
    {
        let now: i64 = if self.run.phase() == Phase::Examining {
            unix_now()
        } else {
            0
        };
        self.step_at(input, now)
    }
}

} // verus!
