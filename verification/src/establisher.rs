//! The request that mounts a share, and the reading of the host's answer.
//!
//! A share is mounted for the session only, and the host may show its own
//! windows and ask the user for credentials. No password is ever handed
//! over: the request has no place for one.

use vstd::prelude::*;
use crate::enumerator::{STATUS_SUCCESS, TYPE_DISK};
use crate::wide::{str_to_wcstring, wide_form};

verus! {

/// The connection is not remembered beyond the session.
pub const CONNECT_TEMPORARY: u32 = 4;

/// The host may interact with the user.
pub const CONNECT_INTERACTIVE: u32 = 8;

/// The host may ask the user for credentials that are missing.
pub const CONNECT_PROMPT: u32 = 16;

/// How the wanted share stands once it has been checked and, if need be,
/// mounted.
#[derive(Clone, Copy, Debug, PartialEq, Eq, Structural)]
pub enum ConnectionOutcome {
    /// The connection table already held the share.
    AlreadyConnected,
    /// The share was mounted.
    Connected,
    /// The host refused to mount the share.
    ConnectFailed,
}

/// What the host is asked in order to mount a share. The names are wide
/// strings. The local name, the comment, the provider and the password of
/// the host's interface are never supplied.
#[derive(Clone, Debug)]
pub struct ConnectRequest {
    pub scope: u32,
    pub resource_type: u32,
    pub display_type: u32,
    pub usage: u32,
    pub remote_name: Vec<u16>,
    pub user_name: Vec<u16>,
    pub flags: u32,
}

/// The flags of every connect request: interactive, prompting, temporary.
pub open spec fn connect_flags() -> u32 {
    CONNECT_INTERACTIVE | CONNECT_PROMPT | CONNECT_TEMPORARY
}

/// Builds the request that mounts `path` as a disk share for `username`.
pub fn connect_request(path: &str, username: &str) -> (request: ConnectRequest)
    ensures
        request.scope == 0,
        request.resource_type == TYPE_DISK,
        request.display_type == 0,
        request.usage == 0,
        request.remote_name@ == wide_form(path@),
        request.user_name@ == wide_form(username@),
        request.flags == connect_flags(),
        request.flags == 28,
{
    assert(8u32 | 16u32 | 4u32 == 28u32) by (bit_vector);
    ConnectRequest {
        scope: 0,
        resource_type: TYPE_DISK,
        display_type: 0,
        usage: 0,
        remote_name: str_to_wcstring(path),
        user_name: str_to_wcstring(username),
        flags: CONNECT_INTERACTIVE | CONNECT_PROMPT | CONNECT_TEMPORARY,
    }
}

/// What a status says of a connect request: only success counts as mounted.
pub open spec fn connect_outcome_of(status: u32) -> ConnectionOutcome {
    if status == STATUS_SUCCESS {
        ConnectionOutcome::Connected
    } else {
        ConnectionOutcome::ConnectFailed
    }
}

/// Reads the status with which the host answered a connect request.
pub fn connect_outcome(status: u32) -> (outcome: ConnectionOutcome)
    ensures
        outcome == connect_outcome_of(status),
{
    if status == STATUS_SUCCESS {
        ConnectionOutcome::Connected
    } else {
        ConnectionOutcome::ConnectFailed
    }
}

} // verus!
