//! The reconciler: a state machine that decides, from the host's answers,
//! what the host is asked next.
//!
//! The machine performs nothing itself. It names the action that is pending;
//! its caller performs that action and hands back the host's answer as an
//! event, and the machine moves on. An event that does not answer the pending
//! action is taken for the failure of that action.
//!
//! The enumeration fails open: whatever goes wrong while the connection table
//! is read, the share is taken to be unmounted and a connection is attempted.
//! Connecting and launching fail closed.

use vstd::prelude::*;
use crate::enumerator::{
    page_status,
    page_status_of,
    scan_of,
    scan_page,
    succeeded,
    PageScan,
    PageStatus,
    STATUS_SUCCESS,
};
use crate::establisher::{
    connect_flags,
    connect_outcome,
    connect_outcome_of,
    connect_request,
    ConnectRequest,
    ConnectionOutcome,
};
use crate::launcher::{
    launch_request,
    launch_succeeded,
    launch_verb,
    LaunchRequest,
    LAUNCH_FAILURE_LIMIT,
    SHOW_NORMAL,
};
use crate::record::AddressWidth;
use crate::wide::wide_form;

verus! {

/// The share that is wanted, and the user it is mounted for.
#[derive(Clone, Debug)]
pub struct ShareRequest {
    pub path: String,
    pub username: String,
}

/// Where a run of the reconciler stands.
#[derive(Clone, Copy, Debug, PartialEq, Eq, Structural)]
pub enum Phase {
    /// Nothing has been asked yet; the enumeration is about to be opened.
    Start,
    /// The enumeration is open and its pages are searched for the path.
    Checking,
    /// The search is over and the enumeration is about to be released.
    Releasing { found: bool },
    /// The path was not found; the share is about to be mounted.
    Connecting,
    /// The share is mounted; the path is about to be opened.
    Launching { outcome: ConnectionOutcome },
    /// The path was opened.
    Done { outcome: ConnectionOutcome },
    /// The share could not be mounted, or the path could not be opened.
    Failed { outcome: ConnectionOutcome },
}

/// What the caller is to do for the machine.
#[derive(Clone, Copy, Debug, PartialEq, Eq, Structural)]
pub enum Action {
    /// Open the enumeration of the connection table.
    OpenEnumeration,
    /// Fetch the next page of the enumeration.
    FetchPage,
    /// Release the enumeration.
    CloseEnumeration,
    /// Mount the share.
    Connect,
    /// Open the path.
    Launch,
    /// Stop: the run is over with this result.
    Finish { success: bool },
}

/// An answer of the host.
#[derive(Debug)]
pub enum Event {
    /// The enumeration was asked for and the host returned `status`.
    Opened { status: u32 },
    /// A page was asked for and the host returned `status`. Of a delivered
    /// page, `bytes` is the buffer, `origin` the address at which its first
    /// byte stood when it was filled, and `count` the number of records.
    Page { status: u32, count: u32, origin: u64, bytes: Vec<u8> },
    /// The enumeration was released and the host returned `status`.
    Closed { status: u32 },
    /// The mount was asked for and the host returned `status`.
    ConnectReturned { status: u32 },
    /// The launch was asked for and the host returned `value`.
    LaunchReturned { value: usize },
}

/// The action that a phase waits for.
pub open spec fn pending(phase: Phase) -> Action {
    match phase {
        Phase::Start => Action::OpenEnumeration,
        Phase::Checking => Action::FetchPage,
        Phase::Releasing { .. } => Action::CloseEnumeration,
        Phase::Connecting => Action::Connect,
        Phase::Launching { .. } => Action::Launch,
        Phase::Done { .. } => Action::Finish { success: true },
        Phase::Failed { .. } => Action::Finish { success: false },
    }
}

/// Whether an event reports that the enumeration was opened.
pub open spec fn opens(event: Event) -> bool {
    event matches Event::Opened { status } && status == STATUS_SUCCESS
}

/// What an event gives the search for `target`: `Some` of the scan of a page
/// that was delivered, `None` for any other event.
pub open spec fn delivers(event: Event, target: Seq<char>, width: AddressWidth) -> Option<PageScan> {
    match event {
        Event::Page { status, count, origin, bytes } => {
            if page_status_of(status) == PageStatus::Delivered {
                Some(scan_of(bytes@, origin as int, count as int, width, target))
            } else {
                None
            }
        },
        _ => None,
    }
}

/// Whether an event reports that the share was mounted.
pub open spec fn mounts(event: Event) -> bool {
    event matches Event::ConnectReturned { status } && connect_outcome_of(status)
        == ConnectionOutcome::Connected
}

/// Whether an event reports that the path was opened.
pub open spec fn launches(event: Event) -> bool {
    event matches Event::LaunchReturned { value } && value > LAUNCH_FAILURE_LIMIT
}

/// The phase that follows the search of the pages when a request for a page
/// was answered: `found` is the scan of the page that was delivered, or
/// `None` where none was. Only a page without the path keeps the search
/// going; a page that holds it ends the search with a match, and anything
/// else ends it without one.
pub open spec fn after_page(found: Option<PageScan>) -> Phase {
    match found {
        Some(PageScan::Found) => Phase::Releasing { found: true },
        Some(PageScan::Absent) => Phase::Checking,
        Some(PageScan::Malformed) => Phase::Releasing { found: false },
        None => Phase::Releasing { found: false },
    }
}

/// The phase that follows `phase` when the host answers with `event`, in a
/// run that looks for `target` in pages whose addresses are `width` wide.
pub open spec fn next_phase(phase: Phase, target: Seq<char>, width: AddressWidth, event: Event) -> Phase {
    match phase {
        Phase::Start => if opens(event) {
            Phase::Checking
        } else {
            Phase::Connecting
        },
        Phase::Checking => after_page(delivers(event, target, width)),
        Phase::Releasing { found } => if found {
            Phase::Launching { outcome: ConnectionOutcome::AlreadyConnected }
        } else {
            Phase::Connecting
        },
        Phase::Connecting => if mounts(event) {
            Phase::Launching { outcome: ConnectionOutcome::Connected }
        } else {
            Phase::Failed { outcome: ConnectionOutcome::ConnectFailed }
        },
        Phase::Launching { outcome } => if launches(event) {
            Phase::Done { outcome }
        } else {
            Phase::Failed { outcome }
        },
        Phase::Done { outcome } => Phase::Done { outcome },
        Phase::Failed { outcome } => Phase::Failed { outcome },
    }
}

/// One run of the reconciliation for one share.
pub struct Reconciler {
    request: ShareRequest,
    width: AddressWidth,
    phase: Phase,
}

/// What a `Reconciler` holds, as plain values.
pub struct ReconcilerView {
    pub path: Seq<char>,
    pub username: Seq<char>,
    pub width: AddressWidth,
    pub phase: Phase,
}

impl View for Reconciler {
    type V = ReconcilerView;

    closed spec fn view(&self) -> ReconcilerView {
        ReconcilerView {
            path: self.request.path@,
            username: self.request.username@,
            width: self.width,
            phase: self.phase,
        }
    }
}

/// The action that a phase waits for.
pub fn pending_action(phase: Phase) -> (action: Action)
    ensures
        action == pending(phase),
{
    match phase {
        Phase::Start => Action::OpenEnumeration,
        Phase::Checking => Action::FetchPage,
        Phase::Releasing { .. } => Action::CloseEnumeration,
        Phase::Connecting => Action::Connect,
        Phase::Launching { .. } => Action::Launch,
        Phase::Done { .. } => Action::Finish { success: true },
        Phase::Failed { .. } => Action::Finish { success: false },
    }
}

/// The phase that follows the search of the pages, given the scan of the
/// page that was delivered, or `None` where none was.
pub fn phase_after_page(found: Option<PageScan>) -> (phase: Phase)
    ensures
        phase == after_page(found),
{
    match found {
        Some(PageScan::Found) => Phase::Releasing { found: true },
        Some(PageScan::Absent) => Phase::Checking,
        _ => Phase::Releasing { found: false },
    }
}

impl Reconciler {
    /// A run for `request` that has not asked anything of the host yet.
    /// `width` is the width of the addresses in the pages that will be
    /// handed in.
    pub fn new(request: ShareRequest, width: AddressWidth) -> (machine: Reconciler)
        ensures
            machine@ == (ReconcilerView {
                path: request.path@,
                username: request.username@,
                width,
                phase: Phase::Start,
            }),
    {
        Reconciler { request, width, phase: Phase::Start }
    }

    /// Where the run stands.
    pub fn phase(&self) -> (phase: Phase)
        ensures
            phase == self@.phase,
    {
        self.phase
    }

    /// The action that the run waits for.
    pub fn pending(&self) -> (action: Action)
        ensures
            action == pending(self@.phase),
    {
        pending_action(self.phase)
    }

    /// How the share stands, once the run knows.
    pub fn outcome(&self) -> (outcome: Option<ConnectionOutcome>)
        ensures
            outcome == match self@.phase {
                Phase::Launching { outcome } => Some(outcome),
                Phase::Done { outcome } => Some(outcome),
                Phase::Failed { outcome } => Some(outcome),
                _ => None,
            },
    {
        match self.phase {
            Phase::Launching { outcome } => Some(outcome),
            Phase::Done { outcome } => Some(outcome),
            Phase::Failed { outcome } => Some(outcome),
            _ => None,
        }
    }

    /// The request with which the share of this run is mounted.
    pub fn connect_request(&self) -> (request: ConnectRequest)
        ensures
            request.scope == 0,
            request.resource_type == crate::enumerator::TYPE_DISK,
            request.display_type == 0,
            request.usage == 0,
            request.remote_name@ == wide_form(self@.path),
            request.user_name@ == wide_form(self@.username),
            request.flags == connect_flags(),
    {
        connect_request(self.request.path.as_str(), self.request.username.as_str())
    }

    /// The request with which the path of this run is opened.
    pub fn launch_request(&self) -> (request: LaunchRequest)
        ensures
            request.verb@ == wide_form(launch_verb()),
            request.target@ == wide_form(self@.path),
            request.show == SHOW_NORMAL,
    {
        launch_request(self.request.path.as_str())
    }

    /// Takes the host's answer to the pending action and returns the action
    /// that is pending next. The share and the width stay as they are.
    pub fn step(&mut self, event: Event) -> (action: Action)
        ensures
            final(self)@ == (ReconcilerView {
                phase: next_phase(old(self)@.phase, old(self)@.path, old(self)@.width, event),
                ..old(self)@
            }),
            action == pending(final(self)@.phase),
    {
        let next = match self.phase {
            Phase::Start => match event {
                Event::Opened { status } => if succeeded(status) {
                    Phase::Checking
                } else {
                    Phase::Connecting
                },
                _ => Phase::Connecting,
            },
            Phase::Checking => {
                let found = match event {
                    Event::Page { status, count, origin, bytes } => match page_status(status) {
                        PageStatus::Delivered => Some(
                            scan_page(
                                bytes.as_slice(),
                                origin,
                                count,
                                self.width,
                                self.request.path.as_str(),
                            ),
                        ),
                        _ => None,
                    },
                    _ => None,
                };
                phase_after_page(found)
            },
            Phase::Releasing { found } => if found {
                Phase::Launching { outcome: ConnectionOutcome::AlreadyConnected }
            } else {
                Phase::Connecting
            },
            Phase::Connecting => match event {
                Event::ConnectReturned { status } => match connect_outcome(status) {
                    ConnectionOutcome::Connected => Phase::Launching {
                        outcome: ConnectionOutcome::Connected,
                    },
                    _ => Phase::Failed { outcome: ConnectionOutcome::ConnectFailed },
                },
                _ => Phase::Failed { outcome: ConnectionOutcome::ConnectFailed },
            },
            Phase::Launching { outcome } => match event {
                Event::LaunchReturned { value } => if launch_succeeded(value) {
                    Phase::Done { outcome }
                } else {
                    Phase::Failed { outcome }
                },
                _ => Phase::Failed { outcome },
            },
            Phase::Done { outcome } => Phase::Done { outcome },
            Phase::Failed { outcome } => Phase::Failed { outcome },
        };
        self.phase = next;
        pending_action(next)
    }
}

} // verus!
