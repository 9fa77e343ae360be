//! The run over one group.
//!
//! A run resolves the group, lists its upcoming events, and answers "yes" to
//! each event that is still ahead when the run comes to it, with a pause
//! after each submission. It reads nothing and sends nothing: each call of
//! [`GroupRun::step_at`] takes what the caller's last action brought back and
//! says what to do next. [`transition`] specifies every such call.

use vstd::prelude::*;
use crate::clock::unix_now;
use crate::failure::{failure_text, Failure, FailureView};
use crate::model::{events_view, EventView, MeetupEvent};
use crate::notice::{unknown_error, Notice, NoticeView};
use crate::protocol::{
    quiet, saying, Action, ActionView, Input, InputView, Reply, ReplyView, Step, StepView,
};
use crate::request::{events_request, group_request, rsvp_request, GetRequest, RsvpRequest};
use crate::retry::{retry_after_seconds, retry_delay};
use crate::schedule::{is_upcoming, upcoming, PACING_SECONDS};
use crate::status::{classify, is_success, status_class, StatusClass};

verus! {

/// How far a run has come.
#[derive(Debug, Clone, Copy, PartialEq, Eq, Structural)]
pub enum Phase {
    /// Nothing was asked for yet.
    Idle,
    /// The read that resolves the group is out.
    GroupRequested,
    /// That read succeeded; its body is being decoded.
    GroupArrived,
    /// The read that lists the events is out.
    EventsRequested,
    /// That read succeeded; its body is being decoded.
    EventsArrived,
    /// The events are known; the next one is looked at when the caller
    /// resumes.
    Examining,
    /// A submission is out.
    RsvpRequested,
    /// The service asked for a wait, and the caller is waiting.
    Backoff,
    /// The run is over.
    Done,
}

/// The state of a run.
pub struct GroupRun {
    api_key: String,
    group_name: String,
    group_id: String,
    events: Vec<MeetupEvent>,
    cursor: usize,
    phase: Phase,
}

/// A [`GroupRun`] as a mathematical value.
pub struct RunView {
    /// The key that the service knows the caller by.
    pub api_key: Seq<char>,
    /// The name under which the group was asked for.
    pub group_name: Seq<char>,
    /// The identifier that the service gave for the group; empty until then.
    pub group_id: Seq<char>,
    /// The events that the service listed, in its order; empty until then.
    pub events: Seq<EventView>,
    /// How many of the events were looked at.
    pub cursor: nat,
    /// How far the run has come.
    pub phase: Phase,
}

impl View for GroupRun {
    type V = RunView;

    closed spec fn view(&self) -> RunView {
        RunView {
            api_key: self.api_key@,
            group_name: self.group_name@,
            group_id: self.group_id@,
            events: events_view(self.events@),
            cursor: self.cursor as nat,
            phase: self.phase,
        }
    }
}

/// The run over the group of the given name, before its first step.
pub open spec fn initial_run(api_key: Seq<char>, group_name: Seq<char>) -> RunView {
    RunView {
        api_key,
        group_name,
        group_id: Seq::empty(),
        events: Seq::empty(),
        cursor: 0,
        phase: Phase::Idle,
    }
}

/// The run ends with `result` and prints nothing more.
pub open spec fn finished(s: RunView, result: Result<(), FailureView>) -> (RunView, StepView) {
    (RunView { phase: Phase::Done, ..s }, quiet(ActionView::Finish(result)))
}

/// What follows the response to a read. On success the body is to be decoded
/// by `decode`, and the run waits for it in the phase `arrived`. On a request
/// to wait, the run reports the wait that the response names and asks for
/// it. On any other status the run reports an unknown error for the group
/// and ends without failure.
pub open spec fn after_read(
    s: RunView,
    reply: ReplyView,
    decode: ActionView,
    arrived: Phase,
) -> (RunView, StepView) {
    match status_class(reply.status) {
        StatusClass::Success => (RunView { phase: arrived, ..s }, quiet(decode)),
        StatusClass::RateLimited => {
            let seconds = retry_delay(reply.retry_after);
            (
                RunView { phase: Phase::Backoff, ..s },
                saying(NoticeView::RateLimited { seconds }, ActionView::Sleep { seconds }),
            )
        },
        StatusClass::Other => (
            RunView { phase: Phase::Done, ..s },
            saying(
                NoticeView::Trouble { group_name: s.group_name, error: unknown_error() },
                ActionView::Finish(Ok(())),
            ),
        ),
    }
}

/// What looking at the next event at the clock reading `now` leads to. With
/// no event left the run ends. An event that is still ahead is announced and
/// submitted; any other is passed over in silence. Either way the event
/// counts as looked at.
pub open spec fn examine(s: RunView, now: int) -> (RunView, StepView) {
    if s.cursor >= s.events.len() {
        finished(s, Ok(()))
    } else {
        let event = s.events[s.cursor as int];
        if upcoming(event.time, now) {
            (
                RunView { cursor: s.cursor + 1, phase: Phase::RsvpRequested, ..s },
                saying(
                    NoticeView::Announced { event_name: event.name },
                    ActionView::Post(rsvp_request(s.api_key, s.group_id, event.id)),
                ),
            )
        } else {
            (RunView { cursor: s.cursor + 1, ..s }, quiet(ActionView::Continue))
        }
    }
}

/// The line that reports how a submission went: accepted on a status of
/// success, declined on any other status, and trouble with the group where
/// the request itself failed.
pub open spec fn rsvp_notice(
    group_name: Seq<char>,
    outcome: Result<ReplyView, FailureView>,
) -> NoticeView {
    match outcome {
        Ok(reply) => if is_success(reply.status) {
            NoticeView::Accepted
        } else {
            NoticeView::Declined
        },
        Err(failure) => NoticeView::Trouble { group_name, error: failure_text(failure) },
    }
}

/// The state that follows `s` and the step that the run answers with, when
/// it is handed `input` at the clock reading `now`.
///
/// The clock reading matters only where an event is looked at. An input
/// that the run did not ask for ends it with [`FailureView::OutOfTurn`].
pub open spec fn transition(s: RunView, input: InputView, now: int) -> (RunView, StepView) {
    match (s.phase, input) {
        (Phase::Idle, InputView::Begin) => (
            RunView { phase: Phase::GroupRequested, ..s },
            quiet(ActionView::Get(group_request(s.api_key, s.group_name))),
        ),
        (Phase::GroupRequested, InputView::Response(Ok(reply))) => after_read(
            s,
            reply,
            ActionView::DecodeGroup,
            Phase::GroupArrived,
        ),
        (Phase::GroupRequested, InputView::Response(Err(failure))) => finished(s, Err(failure)),
        (Phase::GroupArrived, InputView::Group(Ok(group))) => (
            RunView { group_id: group.id, phase: Phase::EventsRequested, ..s },
            quiet(ActionView::Get(events_request(s.api_key, s.group_name))),
        ),
        (Phase::GroupArrived, InputView::Group(Err(failure))) => finished(s, Err(failure)),
        (Phase::EventsRequested, InputView::Response(Ok(reply))) => after_read(
            s,
            reply,
            ActionView::DecodeEvents,
            Phase::EventsArrived,
        ),
        (Phase::EventsRequested, InputView::Response(Err(failure))) => finished(s, Err(failure)),
        (Phase::EventsArrived, InputView::Events(Ok(events))) => (
            RunView { events, cursor: 0, phase: Phase::Examining, ..s },
            quiet(ActionView::Continue),
        ),
        (Phase::EventsArrived, InputView::Events(Err(failure))) => finished(s, Err(failure)),
        (Phase::Examining, InputView::Resume) => examine(s, now),
        (Phase::RsvpRequested, InputView::Response(outcome)) => (
            RunView { phase: Phase::Examining, ..s },
            saying(
                rsvp_notice(s.group_name, outcome),
                ActionView::Sleep { seconds: PACING_SECONDS as nat },
            ),
        ),
        (Phase::Backoff, InputView::Resume) => finished(s, Ok(())),
        _ => finished(s, Err(FailureView::OutOfTurn)),
    }
}

/// Says how a submission went.
pub fn rsvp_outcome(group_name: &str, outcome: &Result<Reply, Failure>) -> (notice: Notice)
    ensures
        notice@ == rsvp_notice(
            group_name@,
            match outcome {
                Ok(reply) => Ok(reply@),
                Err(failure) => Err(failure@),
            },
        ),
{
    match outcome {
        Ok(reply) => match classify(reply.status) {
            StatusClass::Success => Notice::Accepted,
            _ => Notice::Declined,
        },
        Err(failure) => Notice::Trouble {
            group_name: String::from_str(group_name),
            error: failure.text(),
        },
    }
}

impl GroupRun {
    /// A run over the group of the given name, with the key that the service
    /// knows the caller by.
    pub fn new(api_key: &str, group_name: &str) -> (run: GroupRun)
        ensures
            run@ == initial_run(api_key@, group_name@),
    {
        let run = GroupRun {
            api_key: String::from_str(api_key),
            group_name: String::from_str(group_name),
            group_id: String::new(),
            events: Vec::new(),
            cursor: 0,
            phase: Phase::Idle,
        };
        assert(run@.events =~= Seq::<EventView>::empty());
        run
    }

    /// How far the run has come.
    pub fn phase(&self) -> (phase: Phase)
        ensures
            phase == self@.phase,
    {
        self.phase
    }

    /// Whether the run is over.
    pub fn is_done(&self) -> (done: bool)
        ensures
            done == (self@.phase == Phase::Done),
    {
        self.phase == Phase::Done
    }

    /// The name under which the group was asked for.
    pub fn group_name(&self) -> (name: &str)
        ensures
            name@ == self@.group_name,
    {
        self.group_name.as_str()
    }

    /// How many of the listed events were looked at.
    pub fn cursor(&self) -> (cursor: usize)
        ensures
            cursor == self@.cursor,
    {
        self.cursor
    }

    /// Ends the run with `result`.
    fn finish(&mut self, result: Result<(), Failure>) -> (out: Step)
        ensures
            (final(self)@, out@) == finished(
                old(self)@,
                match result {
                    Ok(_) => Ok(()),
                    Err(failure) => Err(failure@),
                },
            ),
    {
        self.phase = Phase::Done;
        Step::quiet(Action::Finish(result))
    }

    /// Acts on the response to a read.
    fn read_answered(&mut self, reply: Reply, decode: Action, arrived: Phase) -> (out: Step)
        ensures
            (final(self)@, out@) == after_read(old(self)@, reply@, decode@, arrived),
    {
        match classify(reply.status) {
            StatusClass::Success => {
                self.phase = arrived;
                Step::quiet(decode)
            },
            StatusClass::RateLimited => {
                let seconds = retry_after_seconds(&reply.retry_after);
                self.phase = Phase::Backoff;
                Step::saying(Notice::RateLimited { seconds }, Action::Sleep { seconds })
            },
            StatusClass::Other => {
                self.phase = Phase::Done;
                Step::saying(
                    Notice::Trouble {
                        group_name: self.group_name.clone(),
                        error: String::from_str("Unknown error"),
                    },
                    Action::Finish(Ok(())),
                )
            },
        }
    }

    /// Looks at the next event at the clock reading `now`.
    fn look_at_next(&mut self, now: i64) -> (out: Step)
        ensures
            (final(self)@, out@) == examine(old(self)@, now as int),
    {
        if self.cursor >= self.events.len() {
            self.finish(Ok(()))
        } else {
            let event = &self.events[self.cursor];
            if is_upcoming(event.time, now) {
                let notice = Notice::Announced { event_name: event.name.clone() };
                let request = RsvpRequest::new(
                    self.api_key.as_str(),
                    self.group_id.as_str(),
                    event.id.as_str(),
                );
                self.cursor = self.cursor + 1;
                self.phase = Phase::RsvpRequested;
                Step::saying(notice, Action::Post(request))
            } else {
                self.cursor = self.cursor + 1;
                Step::quiet(Action::Continue)
            }
        }
    }

    /// Takes what the caller's last action brought back and says what to do
    /// next, looking at an event, where one is looked at, at the clock
    /// reading `now`: seconds since the epoch.
    pub fn step_at(&mut self, input: Input, now: i64) -> (out: Step)
        ensures
            (final(self)@, out@) == transition(old(self)@, input@, now as int),
    {
        match (self.phase, input) {
            (Phase::Idle, Input::Begin) => {
                self.phase = Phase::GroupRequested;
                Step::quiet(
                    Action::Get(
                        GetRequest::for_group(self.api_key.as_str(), self.group_name.as_str()),
                    ),
                )
            },
            (Phase::GroupRequested, Input::Response(Ok(reply))) => self.read_answered(
                reply,
                Action::DecodeGroup,
                Phase::GroupArrived,
            ),
            (Phase::GroupRequested, Input::Response(Err(failure))) => self.finish(Err(failure)),
            (Phase::GroupArrived, Input::Group(Ok(group))) => {
                self.group_id = group.id;
                self.phase = Phase::EventsRequested;
                Step::quiet(
                    Action::Get(
                        GetRequest::for_events(self.api_key.as_str(), self.group_name.as_str()),
                    ),
                )
            },
            (Phase::GroupArrived, Input::Group(Err(failure))) => self.finish(Err(failure)),
            (Phase::EventsRequested, Input::Response(Ok(reply))) => self.read_answered(
                reply,
                Action::DecodeEvents,
                Phase::EventsArrived,
            ),
            (Phase::EventsRequested, Input::Response(Err(failure))) => self.finish(Err(failure)),
            (Phase::EventsArrived, Input::Events(Ok(events))) => {
                self.events = events;
                self.cursor = 0;
                self.phase = Phase::Examining;
                Step::quiet(Action::Continue)
            },
            (Phase::EventsArrived, Input::Events(Err(failure))) => self.finish(Err(failure)),
            (Phase::Examining, Input::Resume) => self.look_at_next(now),
            (Phase::RsvpRequested, Input::Response(outcome)) => {
                let notice = rsvp_outcome(self.group_name.as_str(), &outcome);
                self.phase = Phase::Examining;
                Step::saying(notice, Action::Sleep { seconds: PACING_SECONDS })
            },
            (Phase::Backoff, Input::Resume) => self.finish(Ok(())),
            _ => self.finish(Err(Failure::OutOfTurn)),
        }
    }

    /// Takes what the caller's last action brought back and says what to do
    /// next. Where an event is looked at, the system clock is read for it.
    pub fn step(&mut self, input: Input) -> (out: Step)
        ensures
            exists|now: i64|
                (final(self)@, out@) == #[trigger] transition(old(self)@, input@, now as int),
    {
        let now: i64 = if self.phase == Phase::Examining {
            unix_now()
        } else {
            0
        };
        self.step_at(input, now)
    }
}

} // verus!
