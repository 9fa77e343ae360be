//! The lines that a run asks its caller to print.

use vstd::prelude::*;
use crate::decimal::{decimal_text, render_decimal};

verus! {

/// One line for the person who watches the run.
#[derive(Debug, PartialEq, Eq)]
pub enum Notice {
    /// A submission for the named event is about to be sent.
    Announced { event_name: String },
    /// The service accepted the submission.
    Accepted,
    /// The service answered the submission with something other than success.
    Declined,
    /// The service asked for a wait of so many seconds.
    RateLimited { seconds: u64 },
    /// Something went wrong while working on the named group.
    Trouble { group_name: String, error: String },
}

impl Clone for Notice {
    fn clone(&self) -> (copy: Notice)
        ensures
            copy == *self,
    {
        match self {
            Notice::Announced { event_name } => Notice::Announced {
                event_name: event_name.clone(),
            },
            Notice::Accepted => Notice::Accepted,
            Notice::Declined => Notice::Declined,
            Notice::RateLimited { seconds } => Notice::RateLimited { seconds: *seconds },
            Notice::Trouble { group_name, error } => Notice::Trouble {
                group_name: group_name.clone(),
                error: error.clone(),
            },
        }
    }
}

/// A [`Notice`] as a mathematical value.
pub enum NoticeView {
    Announced { event_name: Seq<char> },
    Accepted,
    Declined,
    RateLimited { seconds: nat },
    Trouble { group_name: Seq<char>, error: Seq<char> },
}

impl View for Notice {
    type V = NoticeView;

    open spec fn view(&self) -> NoticeView {
        match self {
            Notice::Announced { event_name } => NoticeView::Announced { event_name: event_name@ },
            Notice::Accepted => NoticeView::Accepted,
            Notice::Declined => NoticeView::Declined,
            Notice::RateLimited { seconds } => NoticeView::RateLimited { seconds: *seconds as nat },
            Notice::Trouble { group_name, error } => NoticeView::Trouble {
                group_name: group_name@,
                error: error@,
            },
        }
    }
}

/// The notices of a list, in the order of the list.
pub open spec fn notices_view(notices: Seq<Notice>) -> Seq<NoticeView> {
    notices.map_values(|n: Notice| n@)
}

/// What is reported of a read that ended with a status that is neither
/// success nor a request to wait.
pub open spec fn unknown_error() -> Seq<char> {
    "Unknown error"@
}

/// The line that announces a submission for the event of the given name.
pub open spec fn announcement(event_name: Seq<char>) -> Seq<char> {
    "RSVPing for '"@ + event_name + "' - It's going to be awesome!"@
}

/// The line that reports trouble with a group.
pub open spec fn trouble_report(group_name: Seq<char>, error: Seq<char>) -> Seq<char> {
    "Oops! Couldn't get ready for "@ + group_name + ": "@ + error
        + ". Keep the party spirit high! 🚀"@
}

/// The line that reports a wait of `seconds` seconds.
pub open spec fn wait_report(seconds: nat) -> Seq<char> {
    "Rate limited. Waiting for "@ + decimal_text(seconds) + " seconds before retrying..."@
}

/// The line that a notice stands for.
pub open spec fn notice_text(notice: NoticeView) -> Seq<char> {
    match notice {
        NoticeView::Announced { event_name } => announcement(event_name),
        NoticeView::Accepted => "Hooray! You're officially in for the event! 🎉"@,
        NoticeView::Declined =>
            "Uh-oh! Couldn't RSVP for the event. Don't worry, we'll get it next time. 🌈"@,
        NoticeView::RateLimited { seconds } => wait_report(seconds),
        NoticeView::Trouble { group_name, error } => trouble_report(group_name, error),
    }
}

/// A notice of trouble is an error report; every other notice is a status
/// line.
pub open spec fn reports_error(notice: NoticeView) -> bool {
    notice is Trouble
}

/// Writes the line that announces a submission for the event of the given
/// name.
pub fn success_message(event_name: &str) -> (line: String)
    ensures
        line@ == announcement(event_name@),
{
    let mut line = String::from_str("RSVPing for '");
    line.append(event_name);
    line.append("' - It's going to be awesome!");
    line
}

/// Writes the line that reports trouble with a group.
pub fn error_message(group_name: &str, error: &str) -> (line: String)
    ensures
        line@ == trouble_report(group_name@, error@),
{
    let mut line = String::from_str("Oops! Couldn't get ready for ");
    line.append(group_name);
    line.append(": ");
    line.append(error);
    line.append(". Keep the party spirit high! 🚀");
    line
}

/// Writes the line that reports a wait of `seconds` seconds.
pub fn rate_limit_message(seconds: u64) -> (line: String)
    ensures
        line@ == wait_report(seconds as nat),
{
    let mut line = String::from_str("Rate limited. Waiting for ");
    let count = render_decimal(seconds);
    line.append(count.as_str());
    line.append(" seconds before retrying...");
    line
}

impl Notice {
    /// The line to print for this notice.
    pub fn text(&self) -> (line: String)
        ensures
            line@ == notice_text(self@),
    {
        match self {
            Notice::Announced { event_name } => success_message(event_name.as_str()),
            Notice::Accepted => String::from_str(
                "Hooray! You're officially in for the event! 🎉",
            ),
            Notice::Declined => String::from_str(
                "Uh-oh! Couldn't RSVP for the event. Don't worry, we'll get it next time. 🌈",
            ),
            Notice::RateLimited { seconds } => rate_limit_message(*seconds),
            Notice::Trouble { group_name, error } => error_message(
                group_name.as_str(),
                error.as_str(),
            ),
        }
    }

    /// Whether the line belongs on the error stream rather than with the
    /// status lines.
    pub fn is_error(&self) -> (error: bool)
        ensures
            error == reports_error(self@),
    {
        match self {
            Notice::Trouble { .. } => true,
            _ => false,
        }
    }
}

} // verus!
