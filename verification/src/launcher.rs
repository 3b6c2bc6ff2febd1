//! The request that opens a path with the host's default handler, and the
//! reading of the host's answer.

use vstd::prelude::*;
use crate::wide::{str_to_wcstring, wide_form};

verus! {

/// The window of the handler is shown in its normal size and place.
pub const SHOW_NORMAL: i32 = 1;

/// The largest value with which the host reports that a launch failed.
pub const LAUNCH_FAILURE_LIMIT: usize = 32;

/// What the host is asked in order to open a path. The verb and the target
/// are wide strings.
#[derive(Clone, Debug)]
pub struct LaunchRequest {
    pub verb: Vec<u16>,
    pub target: Vec<u16>,
    pub show: i32,
}

/// The verb of every launch request.
pub open spec fn launch_verb() -> Seq<char> {
    "open"@
}

/// Builds the request that opens `path`.
pub fn launch_request(path: &str) -> (request: LaunchRequest)
    ensures
        request.verb@ == wide_form(launch_verb()),
        request.target@ == wide_form(path@),
        request.show == SHOW_NORMAL,
{
    LaunchRequest { verb: str_to_wcstring("open"), target: str_to_wcstring(path), show: SHOW_NORMAL }
}

/// Whether the value that the host returned reports a launch. The host
/// packs its error codes into the values up to `LAUNCH_FAILURE_LIMIT`;
/// any value above it is a handle.
pub fn launch_succeeded(value: usize) -> (launched: bool)
    ensures
        launched == (value > LAUNCH_FAILURE_LIMIT),
{
    value > LAUNCH_FAILURE_LIMIT
}

} // verus!
