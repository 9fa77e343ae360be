//! What a run and its caller say to each other.
//!
//! The caller hands the run an [`Input`]: what the last thing it did brought
//! back. The run answers with a [`Step`]: lines to print, then one
//! [`Action`] to perform, whose result is the next input.

use vstd::prelude::*;
use crate::failure::{Failure, FailureView};
use crate::model::{events_view, EventView, GroupView, MeetupEvent, MeetupGroup};
use crate::notice::{notices_view, Notice, NoticeView};
use crate::request::{GetRequest, GetRequestView, RsvpRequest, RsvpRequestView};

verus! {

/// What the caller keeps of a response before its body is read.
#[derive(Debug, PartialEq, Eq)]
pub struct Reply {
    /// The status code.
    pub status: u16,
    /// The bytes of the `Retry-After` header, if the response has one.
    pub retry_after: Option<Vec<u8>>,
}

/// A [`Reply`] as a mathematical value.
pub struct ReplyView {
    pub status: int,
    pub retry_after: Option<Seq<u8>>,
}

/// The bytes of a header that may be missing.
pub open spec fn header_view(header: Option<Vec<u8>>) -> Option<Seq<u8>> {
    match header {
        Some(bytes) => Some(bytes@),
        None => None,
    }
}

impl View for Reply {
    type V = ReplyView;

    open spec fn view(&self) -> ReplyView {
        ReplyView { status: self.status as int, retry_after: header_view(self.retry_after) }
    }
}

impl Clone for Reply {
    fn clone(&self) -> (copy: Reply)
        ensures
            copy@ == self@,
    {
        let retry_after = match &self.retry_after {
            Some(bytes) => {
                let mut copied: Vec<u8> = Vec::new();
                let mut i: usize = 0;
                while i < bytes.len()
                    invariant
                        i <= bytes.len(),
                        copied@ == bytes@.subrange(0, i as int),
                    decreases bytes.len() - i,
                {
                    copied.push(bytes[i]);
                    i = i + 1;
                }
                assert(copied@ =~= bytes@);
                Some(copied)
            },
            None => None,
        };
        Reply { status: self.status, retry_after }
    }
}

/// What the caller reports back to a run.
#[derive(Debug, PartialEq, Eq)]
pub enum Input {
    /// Nothing yet: the run is to start.
    Begin,
    /// How the request of the last [`Action::Get`] or [`Action::Post`] went.
    Response(Result<Reply, Failure>),
    /// What [`Action::DecodeGroup`] found in the body of the last response.
    Group(Result<MeetupGroup, Failure>),
    /// What [`Action::DecodeEvents`] found in the body of the last response.
    Events(Result<Vec<MeetupEvent>, Failure>),
    /// The last [`Action::Sleep`] or [`Action::Continue`] is over.
    Resume,
}

/// An [`Input`] as a mathematical value.
pub enum InputView {
    Begin,
    Response(Result<ReplyView, FailureView>),
    Group(Result<GroupView, FailureView>),
    Events(Result<Seq<EventView>, FailureView>),
    Resume,
}

impl View for Input {
    type V = InputView;

    open spec fn view(&self) -> InputView {
        match self {
            Input::Begin => InputView::Begin,
            Input::Response(Ok(reply)) => InputView::Response(Ok(reply@)),
            Input::Response(Err(failure)) => InputView::Response(Err(failure@)),
            Input::Group(Ok(group)) => InputView::Group(Ok(group@)),
            Input::Group(Err(failure)) => InputView::Group(Err(failure@)),
            Input::Events(Ok(events)) => InputView::Events(Ok(events_view(events@))),
            Input::Events(Err(failure)) => InputView::Events(Err(failure@)),
            Input::Resume => InputView::Resume,
        }
    }
}

/// What a run asks its caller to do next.
#[derive(Debug, PartialEq, Eq)]
pub enum Action {
    /// Send the read and answer with [`Input::Response`].
    Get(GetRequest),
    /// Decode the body of the last response as a group and answer with
    /// [`Input::Group`].
    DecodeGroup,
    /// Decode the body of the last response as a list of events and answer
    /// with [`Input::Events`].
    DecodeEvents,
    /// Send the submission and answer with [`Input::Response`].
    Post(RsvpRequest),
    /// Wait so many seconds and answer with [`Input::Resume`].
    Sleep { seconds: u64 },
    /// Nothing to perform: answer with [`Input::Resume`].
    Continue,
    /// The run is over, with this result.
    Finish(Result<(), Failure>),
}

/// An [`Action`] as a mathematical value.
pub enum ActionView {
    Get(GetRequestView),
    DecodeGroup,
    DecodeEvents,
    Post(RsvpRequestView),
    Sleep { seconds: nat },
    Continue,
    Finish(Result<(), FailureView>),
}

impl View for Action {
    type V = ActionView;

    open spec fn view(&self) -> ActionView {
        match self {
            Action::Get(request) => ActionView::Get(request@),
            Action::DecodeGroup => ActionView::DecodeGroup,
            Action::DecodeEvents => ActionView::DecodeEvents,
            Action::Post(request) => ActionView::Post(request@),
            Action::Sleep { seconds } => ActionView::Sleep { seconds: *seconds as nat },
            Action::Continue => ActionView::Continue,
            Action::Finish(Ok(_)) => ActionView::Finish(Ok(())),
            Action::Finish(Err(failure)) => ActionView::Finish(Err(failure@)),
        }
    }
}

/// One answer of a run: the lines to print, in order, and then the action to
/// perform.
#[derive(Debug, PartialEq, Eq)]
pub struct Step {
    pub notices: Vec<Notice>,
    pub action: Action,
}

/// A [`Step`] as a mathematical value.
pub struct StepView {
    pub notices: Seq<NoticeView>,
    pub action: ActionView,
}

impl View for Step {
    type V = StepView;

    open spec fn view(&self) -> StepView {
        StepView { notices: notices_view(self.notices@), action: self.action@ }
    }
}

/// The step that prints nothing and asks for `action`.
pub open spec fn quiet(action: ActionView) -> StepView {
    StepView { notices: Seq::empty(), action }
}

/// The step that prints one line and asks for `action`.
pub open spec fn saying(notice: NoticeView, action: ActionView) -> StepView {
    StepView { notices: seq![notice], action }
}

impl Step {
    /// The step that prints nothing and asks for `action`.
    pub fn quiet(action: Action) -> (step: Step)
        ensures
            step@ == quiet(action@),
    {
        let step = Step { notices: Vec::new(), action };
        assert(step@.notices =~= Seq::<NoticeView>::empty());
        step
    }

    /// The step that prints one line and asks for `action`.
    pub fn saying(notice: Notice, action: Action) -> (step: Step)
        ensures
            step@ == saying(notice@, action@),
    {
        let mut notices: Vec<Notice> = Vec::new();
        notices.push(notice);
        let step = Step { notices, action };
        assert(step@.notices =~= seq![notice@]);
        step
    }
}

} // verus!
