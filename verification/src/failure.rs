//! What can go wrong with a request.

use vstd::prelude::*;

verus! {

/// Why a request brought nothing that the run can use.
#[derive(Debug, PartialEq, Eq)]
pub enum Failure {
    /// The request did not reach the service, or its answer did not arrive.
    /// Holds the transport's account of it.
    Transport(String),
    /// The answer arrived, but its body is not of the expected shape. Holds
    /// the decoder's account of it.
    Decode(String),
    /// The run was handed something that it had not asked for.
    OutOfTurn,
}

impl Clone for Failure {
    fn clone(&self) -> (copy: Failure)
        ensures
            copy == *self,
    {
        match self {
            Failure::Transport(detail) => Failure::Transport(detail.clone()),
            Failure::Decode(detail) => Failure::Decode(detail.clone()),
            Failure::OutOfTurn => Failure::OutOfTurn,
        }
    }
}

/// A [`Failure`] as a mathematical value.
pub enum FailureView {
    Transport(Seq<char>),
    Decode(Seq<char>),
    OutOfTurn,
}

impl View for Failure {
    type V = FailureView;

    open spec fn view(&self) -> FailureView {
        match self {
            Failure::Transport(detail) => FailureView::Transport(detail@),
            Failure::Decode(detail) => FailureView::Decode(detail@),
            Failure::OutOfTurn => FailureView::OutOfTurn,
        }
    }
}

/// The words that describe a failure to a person.
pub open spec fn failure_text(failure: FailureView) -> Seq<char> {
    match failure {
        FailureView::Transport(detail) => detail,
        FailureView::Decode(detail) => detail,
        FailureView::OutOfTurn => "the run was answered out of turn"@,
    }
}

impl Failure {
    /// The words that describe this failure to a person.
    pub fn text(&self) -> (words: String)
        ensures
            words@ == failure_text(self@),
    {
        match self {
            Failure::Transport(detail) => detail.clone(),
            Failure::Decode(detail) => detail.clone(),
            Failure::OutOfTurn => String::from_str("the run was answered out of turn"),
        }
    }
}

} // verus!
