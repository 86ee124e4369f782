use vstd::prelude::*;

pub mod digits;
pub mod model;
pub mod resolve;
pub mod trigger;

pub use model::{Error, ErrorView, ExecutableView, Jenkins, JenkinsView, QueueItemExecutable,
    QueueItemRes, QueueItemResView};

verus! {

/// Classification of an HTTP status code as a success (2xx), as the
/// server reports it.
pub open spec fn spec_is_success(status: u16) -> bool {
    200 <= status < 300
}

/// Classification of an HTTP status code as a client error (4xx).
pub open spec fn spec_is_client_error(status: u16) -> bool {
    400 <= status < 500
}

/// Exec check for a 2xx status.
pub fn is_success_status(status: u16) -> (r: bool)
    ensures
        r == spec_is_success(status),
{
    200 <= status && status < 300
}

/// Exec check for a 4xx status.
pub fn is_client_error_status(status: u16) -> (r: bool)
    ensures
        r == spec_is_client_error(status),
{
    400 <= status && status < 500
}

} // verus!
