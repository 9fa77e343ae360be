//! How a read request's status code is understood.

use vstd::prelude::*;

verus! {

/// The status code with which the service refuses a caller that asks too often.
pub const TOO_MANY_REQUESTS: u16 = 429;

/// The three ways in which a read can have ended.
#[derive(Debug, Clone, Copy, PartialEq, Eq, Structural)]
pub enum StatusClass {
    /// The request was served.
    Success,
    /// The service asks the caller to wait.
    RateLimited,
    /// Anything else.
    Other,
}

/// A status code in the range 200 to 299 reports success.
pub open spec fn is_success(status: int) -> bool {
    200 <= status <= 299
}

/// The class of a status code.
pub open spec fn status_class(status: int) -> StatusClass {
    if is_success(status) {
        StatusClass::Success
    } else if status == TOO_MANY_REQUESTS {
        StatusClass::RateLimited
    } else {
        StatusClass::Other
    }
}

/// Sorts a status code into its class.
pub fn classify(status: u16) -> (class: StatusClass)
    ensures
        class == status_class(status as int),
{
    if 200 <= status && status <= 299 {
        StatusClass::Success
    } else if status == TOO_MANY_REQUESTS {
        StatusClass::RateLimited
    } else {
        StatusClass::Other
    }
}

} // verus!
