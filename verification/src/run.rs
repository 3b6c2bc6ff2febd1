//! Runs of the reconciler, and what holds of every run.
//!
//! A run is given by the answers of the host, in order. Before the first
//! answer the run stands at `Phase::Start`. Step `i` of a run is reached after
//! `i` answers; the action of step `i` is the one that answer `i` answers.
//! Nothing is assumed of the answers: the statements hold of a host that
//! answers out of turn as well.

use vstd::prelude::*;
use crate::enumerator::{page_status_of, PageScan, PageStatus};
use crate::establisher::ConnectionOutcome;
use crate::reconciler::{delivers, launches, mounts, next_phase, opens, pending, Action, Event, Phase};
use crate::record::AddressWidth;

verus! {

/// The phase that a run for `target` stands at after the answers `events`.
pub open spec fn phase_after(target: Seq<char>, width: AddressWidth, events: Seq<Event>) -> Phase
    decreases events.len(),
{
    if events.len() == 0 {
        Phase::Start
    } else {
        next_phase(phase_after(target, width, events.drop_last()), target, width, events.last())
    }
}

/// The phase at step `step` of the run.
pub open spec fn phase_at(target: Seq<char>, width: AddressWidth, events: Seq<Event>, step: int) -> Phase {
    phase_after(target, width, events.take(step))
}

/// The action of step `step` of the run.
pub open spec fn action_at(target: Seq<char>, width: AddressWidth, events: Seq<Event>, step: int) -> Action {
    pending(phase_at(target, width, events, step))
}

/// How far a phase is along the way from the start to the end of a run.
pub open spec fn progress(phase: Phase) -> nat {
    match phase {
        Phase::Start => 0,
        Phase::Checking => 1,
        Phase::Releasing { .. } => 2,
        Phase::Connecting => 3,
        Phase::Launching { .. } => 4,
        Phase::Done { .. } => 5,
        Phase::Failed { .. } => 5,
    }
}

/// Whether a run at `phase` has left the enumeration behind.
pub open spec fn past_enumeration(phase: Phase) -> bool {
    progress(phase) >= 3
}

/// Whether the answers show the path in the connection table: the
/// enumeration opens, answers `1` to `page - 1` are pages without the path,
/// and answer `page` is a page that holds it.
pub open spec fn finds_on(target: Seq<char>, width: AddressWidth, events: Seq<Event>, page: int) -> bool {
    &&& 1 <= page < events.len()
    &&& opens(events[0])
    &&& forall|earlier: int|
        1 <= earlier < page ==> #[trigger] delivers(events[earlier], target, width) == Some(
            PageScan::Absent,
        )
    &&& delivers(events[page], target, width) == Some(PageScan::Found)
}

/// Whether the answers show no such path: either the enumeration does not
/// open (`last` is 0), or it opens, answers `1` to `last - 1` are pages
/// without the path, and answer `last` ends the enumeration without a match:
/// the table is exhausted, the request failed, or the page is malformed.
pub open spec fn misses_by(target: Seq<char>, width: AddressWidth, events: Seq<Event>, last: int) -> bool {
    &&& 0 <= last < events.len()
    &&& if last == 0 {
        !opens(events[0])
    } else {
        &&& opens(events[0])
        &&& forall|earlier: int|
            1 <= earlier < last ==> #[trigger] delivers(events[earlier], target, width) == Some(
                PageScan::Absent,
            )
        &&& delivers(events[last], target, width) != Some(PageScan::Found)
        &&& delivers(events[last], target, width) != Some(PageScan::Absent)
    }
}

/// The step at which a run connects whose enumeration ended with answer `last`.
pub open spec fn connect_step(last: int) -> int {
    if last == 0 {
        1
    } else {
        last + 2
    }
}

/// One answer never takes a run back, takes it on from every phase but the
/// search and the end, and leaves a run that is over as it is.
proof fn lemma_advance(phase: Phase, target: Seq<char>, width: AddressWidth, event: Event)
    ensures
        progress(phase) <= progress(next_phase(phase, target, width, event)),
        phase != Phase::Checking && progress(phase) < 5 ==> progress(phase) < progress(
            next_phase(phase, target, width, event),
        ),
        progress(phase) == 5 ==> next_phase(phase, target, width, event) == phase,
{
}

proof fn lemma_step(target: Seq<char>, width: AddressWidth, events: Seq<Event>, step: int)
    requires
        0 <= step < events.len(),
    ensures
        phase_at(target, width, events, step + 1) == next_phase(
            phase_at(target, width, events, step),
            target,
            width,
            events[step],
        ),
{
    assert(events.take(step + 1).drop_last() =~= events.take(step));
    assert(events.take(step + 1).last() == events[step]);
}

proof fn lemma_start(target: Seq<char>, width: AddressWidth, events: Seq<Event>)
    ensures
        phase_at(target, width, events, 0) == Phase::Start,
{
    assert(events.take(0).len() == 0);
}

proof fn lemma_end(target: Seq<char>, width: AddressWidth, events: Seq<Event>)
    ensures
        phase_at(target, width, events, events.len() as int) == phase_after(target, width, events),
{
    assert(events.take(events.len() as int) =~= events);
}

proof fn lemma_forward(target: Seq<char>, width: AddressWidth, events: Seq<Event>, from: int, to: int)
    requires
        0 <= from <= to <= events.len(),
    ensures
        progress(phase_at(target, width, events, from)) <= progress(
            phase_at(target, width, events, to),
        ),
    decreases to - from,
{
    if from < to {
        lemma_forward(target, width, events, from, to - 1);
        lemma_step(target, width, events, to - 1);
        lemma_advance(phase_at(target, width, events, to - 1), target, width, events[to - 1]);
    }
}

proof fn lemma_onward(target: Seq<char>, width: AddressWidth, events: Seq<Event>, from: int, to: int)
    requires
        0 <= from < to <= events.len(),
        phase_at(target, width, events, from) != Phase::Checking,
        progress(phase_at(target, width, events, from)) < 5,
    ensures
        progress(phase_at(target, width, events, from)) < progress(
            phase_at(target, width, events, to),
        ),
{
    lemma_step(target, width, events, from);
    lemma_advance(phase_at(target, width, events, from), target, width, events[from]);
    lemma_forward(target, width, events, from + 1, to);
}

proof fn lemma_final(target: Seq<char>, width: AddressWidth, events: Seq<Event>, from: int, to: int)
    requires
        0 <= from <= to <= events.len(),
        progress(phase_at(target, width, events, from)) == 5,
    ensures
        phase_at(target, width, events, to) == phase_at(target, width, events, from),
    decreases to - from,
{
    if from < to {
        lemma_final(target, width, events, from, to - 1);
        lemma_step(target, width, events, to - 1);
        lemma_advance(phase_at(target, width, events, to - 1), target, width, events[to - 1]);
    }
}

/// Two steps that stand at the same phase stand at the search or at the end.
proof fn lemma_apart(target: Seq<char>, width: AddressWidth, events: Seq<Event>, one: int, other: int)
    requires
        0 <= one <= events.len(),
        0 <= other <= events.len(),
        one != other,
        progress(phase_at(target, width, events, one)) == progress(
            phase_at(target, width, events, other),
        ),
    ensures
        phase_at(target, width, events, one) == Phase::Checking || progress(
            phase_at(target, width, events, one),
        ) == 5,
{
    if phase_at(target, width, events, one) != Phase::Checking && progress(
        phase_at(target, width, events, one),
    ) < 5 {
        if one < other {
            lemma_onward(target, width, events, one, other);
        } else {
            lemma_onward(target, width, events, other, one);
        }
    }
}

proof fn lemma_checking(target: Seq<char>, width: AddressWidth, events: Seq<Event>, through: int)
    requires
        1 <= through <= events.len(),
        opens(events[0]),
        forall|earlier: int|
            1 <= earlier < through ==> #[trigger] delivers(events[earlier], target, width) == Some(
                PageScan::Absent,
            ),
    ensures
        phase_at(target, width, events, through) == Phase::Checking,
    decreases through,
{
    if through == 1 {
        lemma_start(target, width, events);
        lemma_step(target, width, events, 0);
    } else {
        lemma_checking(target, width, events, through - 1);
        lemma_step(target, width, events, through - 1);
        assert(delivers(events[through - 1], target, width) == Some(PageScan::Absent));
    }
}

/// A run that has left an opened enumeration behind passed a release.
proof fn lemma_release(target: Seq<char>, width: AddressWidth, events: Seq<Event>, from: int, to: int) -> (at:
    int)
    requires
        1 <= from <= to <= events.len(),
        phase_at(target, width, events, from) == Phase::Checking,
        past_enumeration(phase_at(target, width, events, to)),
    ensures
        from < at < to,
        phase_at(target, width, events, at) is Releasing,
    decreases to - from,
{
    lemma_step(target, width, events, from);
    if phase_at(target, width, events, from + 1) == Phase::Checking {
        lemma_release(target, width, events, from + 1, to)
    } else {
        if from + 1 == to {
        } else {
            lemma_forward(target, width, events, from + 1, to);
        }
        from + 1
    }
}

/// No call but the fetch of a page is made twice: in every run, two steps
/// with the same action are fetches, or the run is over at both.
pub proof fn law_no_call_is_repeated(
    target: Seq<char>,
    width: AddressWidth,
    events: Seq<Event>,
    first: int,
    second: int,
)
    requires
        0 <= first < second <= events.len(),
        action_at(target, width, events, first) == action_at(target, width, events, second),
    ensures
        action_at(target, width, events, first) == Action::FetchPage || action_at(
            target,
            width,
            events,
            first,
        ) is Finish,
{
    lemma_apart(target, width, events, first, second);
}

/// A path that the connection table holds is never connected anew: where the
/// answers show the path on a page, no step of the run asks for a
/// connection, the search ends with a match, and once the enumeration is
/// released the run goes on to launch with `AlreadyConnected`.
pub proof fn law_present_path_is_not_connected(
    target: Seq<char>,
    width: AddressWidth,
    events: Seq<Event>,
    page: int,
)
    requires
        finds_on(target, width, events, page),
    ensures
        forall|step: int|
            0 <= step <= events.len() ==> #[trigger] action_at(target, width, events, step)
                != Action::Connect,
        phase_at(target, width, events, page + 1) == (Phase::Releasing { found: true }),
        page + 2 <= events.len() ==> phase_at(target, width, events, page + 2) == (Phase::Launching {
            outcome: ConnectionOutcome::AlreadyConnected,
        }),
{
    lemma_checking(target, width, events, page);
    lemma_step(target, width, events, page);
    if page + 2 <= events.len() {
        lemma_step(target, width, events, page + 1);
    }
    assert forall|step: int| 0 <= step <= events.len() implies #[trigger] action_at(
        target,
        width,
        events,
        step,
    ) != Action::Connect by {
        if step <= page {
            lemma_forward(target, width, events, step, page);
        } else if step >= page + 2 {
            lemma_forward(target, width, events, page + 2, step);
        }
    }
}

proof fn lemma_connecting(target: Seq<char>, width: AddressWidth, events: Seq<Event>, last: int)
    requires
        misses_by(target, width, events, last),
        connect_step(last) <= events.len(),
    ensures
        phase_at(target, width, events, connect_step(last)) == Phase::Connecting,
{
    if last == 0 {
        lemma_start(target, width, events);
        lemma_step(target, width, events, 0);
    } else {
        lemma_checking(target, width, events, last);
        lemma_step(target, width, events, last);
        lemma_step(target, width, events, last + 1);
    }
}

/// A path that the connection table does not show is connected exactly once,
/// and before any launch: where the enumeration ends without a match, the
/// run asks for a connection at one step and at no other, and no step up to
/// that one asks for a launch.
pub proof fn law_absent_path_is_connected_once(
    target: Seq<char>,
    width: AddressWidth,
    events: Seq<Event>,
    last: int,
)
    requires
        misses_by(target, width, events, last),
        connect_step(last) <= events.len(),
    ensures
        action_at(target, width, events, connect_step(last)) == Action::Connect,
        forall|step: int|
            0 <= step <= events.len() && step != connect_step(last) ==> #[trigger] action_at(
                target,
                width,
                events,
                step,
            ) != Action::Connect,
        forall|step: int|
            0 <= step <= connect_step(last) ==> #[trigger] action_at(target, width, events, step)
                != Action::Launch,
{
    let at = connect_step(last);
    lemma_connecting(target, width, events, last);
    assert forall|step: int| 0 <= step <= events.len() && step != at implies #[trigger] action_at(
        target,
        width,
        events,
        step,
    ) != Action::Connect by {
        if phase_at(target, width, events, step) == Phase::Connecting {
            lemma_apart(target, width, events, at, step);
        }
    }
    assert forall|step: int| 0 <= step <= at implies #[trigger] action_at(
        target,
        width,
        events,
        step,
    ) != Action::Launch by {
        lemma_forward(target, width, events, step, at);
    }
}

/// A connection that fails is never followed by a launch, and the run fails:
/// where the answer to the connect request does not report success, no step
/// of the run asks for a launch, every later step finishes without success,
/// and the run ends as failed with `ConnectFailed`.
pub proof fn law_failed_connect_is_not_launched(
    target: Seq<char>,
    width: AddressWidth,
    events: Seq<Event>,
    at: int,
)
    requires
        0 <= at < events.len(),
        action_at(target, width, events, at) == Action::Connect,
        !mounts(events[at]),
    ensures
        forall|step: int|
            0 <= step <= events.len() ==> #[trigger] action_at(target, width, events, step)
                != Action::Launch,
        forall|step: int|
            at < step <= events.len() ==> #[trigger] action_at(target, width, events, step) == (
            Action::Finish { success: false }),
        phase_after(target, width, events) == (Phase::Failed {
            outcome: ConnectionOutcome::ConnectFailed,
        }),
{
    lemma_step(target, width, events, at);
    assert(phase_at(target, width, events, at + 1) == (Phase::Failed {
        outcome: ConnectionOutcome::ConnectFailed,
    }));
    assert forall|step: int| 0 <= step <= events.len() implies #[trigger] action_at(
        target,
        width,
        events,
        step,
    ) != Action::Launch by {
        if step <= at {
            lemma_forward(target, width, events, step, at);
        } else {
            lemma_final(target, width, events, at + 1, step);
        }
    }
    assert forall|step: int| at < step <= events.len() implies #[trigger] action_at(
        target,
        width,
        events,
        step,
    ) == (Action::Finish { success: false }) by {
        lemma_final(target, width, events, at + 1, step);
    }
    lemma_final(target, width, events, at + 1, events.len() as int);
    lemma_end(target, width, events);
}

/// An enumeration whose first page fails yields nothing and fails nothing:
/// whatever the failed answer holds, the search ends without a match, the
/// enumeration is released, and the run goes on to connect.
pub proof fn law_first_page_error_fails_open(target: Seq<char>, width: AddressWidth, events: Seq<Event>)
    requires
        events.len() >= 2,
        opens(events[0]),
        events[1] matches Event::Page { status, .. } && page_status_of(status) == PageStatus::Failed,
    ensures
        action_at(target, width, events, 1) == Action::FetchPage,
        phase_at(target, width, events, 2) == (Phase::Releasing { found: false }),
        events.len() >= 3 ==> action_at(target, width, events, 3) == Action::Connect,
{
    lemma_start(target, width, events);
    lemma_step(target, width, events, 0);
    lemma_step(target, width, events, 1);
    if events.len() >= 3 {
        lemma_step(target, width, events, 2);
    }
}

/// An enumeration that was opened is released exactly once, however it ends,
/// and never used again: in a run that has left the enumeration behind, some
/// step releases it if it was opened and none does if it was not, and after
/// a step that releases it no step releases it again or fetches a page.
pub proof fn law_enumeration_is_released_once(target: Seq<char>, width: AddressWidth, events: Seq<Event>)
    requires
        events.len() >= 1,
        past_enumeration(phase_after(target, width, events)),
    ensures
        opens(events[0]) ==> exists|at: int|
            0 <= at <= events.len() && #[trigger] action_at(target, width, events, at)
                == Action::CloseEnumeration,
        !opens(events[0]) ==> forall|step: int|
            0 <= step <= events.len() ==> #[trigger] action_at(target, width, events, step)
                != Action::CloseEnumeration,
        forall|first: int, second: int|
            0 <= first < second <= events.len() && #[trigger] action_at(
                target,
                width,
                events,
                first,
            ) == Action::CloseEnumeration ==> #[trigger] action_at(target, width, events, second)
                != Action::CloseEnumeration && action_at(target, width, events, second)
                != Action::FetchPage,
{
    let len = events.len() as int;
    lemma_end(target, width, events);
    lemma_start(target, width, events);
    lemma_step(target, width, events, 0);
    if opens(events[0]) {
        let at = lemma_release(target, width, events, 1, len);
        assert(action_at(target, width, events, at) == Action::CloseEnumeration);
    } else {
        assert forall|step: int| 0 <= step <= events.len() implies #[trigger] action_at(
            target,
            width,
            events,
            step,
        ) != Action::CloseEnumeration by {
            if step >= 1 {
                lemma_forward(target, width, events, 1, step);
            }
        }
    }
    assert forall|first: int, second: int|
        0 <= first < second <= events.len() && #[trigger] action_at(target, width, events, first)
            == Action::CloseEnumeration implies #[trigger] action_at(target, width, events, second)
        != Action::CloseEnumeration && action_at(target, width, events, second)
        != Action::FetchPage by {
        lemma_onward(target, width, events, first, second);
    }
}

proof fn lemma_launched(target: Seq<char>, width: AddressWidth, events: Seq<Event>, step: int) -> (at:
    int)
    requires
        0 <= step <= events.len(),
        phase_at(target, width, events, step) is Done,
    ensures
        0 <= at < step,
        action_at(target, width, events, at) == Action::Launch,
        launches(events[at]),
    decreases step,
{
    if step == 0 {
        lemma_start(target, width, events);
        0
    } else {
        lemma_step(target, width, events, step - 1);
        if phase_at(target, width, events, step - 1) is Done {
            lemma_launched(target, width, events, step - 1)
        } else {
            step - 1
        }
    }
}

proof fn lemma_mounted(target: Seq<char>, width: AddressWidth, events: Seq<Event>, step: int)
    requires
        0 <= step <= events.len(),
    ensures
        phase_at(target, width, events, step) matches Phase::Launching { outcome } ==> outcome
            != ConnectionOutcome::ConnectFailed,
        phase_at(target, width, events, step) matches Phase::Done { outcome } ==> outcome
            != ConnectionOutcome::ConnectFailed,
    decreases step,
{
    if step == 0 {
        lemma_start(target, width, events);
    } else {
        lemma_mounted(target, width, events, step - 1);
        lemma_step(target, width, events, step - 1);
    }
}

/// The result of a run is the result of its launch: a run is done exactly
/// when some step asked for a launch and the answer reported one, and a run
/// that is done or launching holds a share that is mounted.
pub proof fn law_done_means_launched(target: Seq<char>, width: AddressWidth, events: Seq<Event>)
    ensures
        phase_after(target, width, events) is Done <==> exists|at: int|
            0 <= at < events.len() && #[trigger] action_at(target, width, events, at)
                == Action::Launch && launches(events[at]),
        phase_after(target, width, events) matches Phase::Done { outcome } ==> outcome
            != ConnectionOutcome::ConnectFailed,
        phase_after(target, width, events) matches Phase::Launching { outcome } ==> outcome
            != ConnectionOutcome::ConnectFailed,
{
    let len = events.len() as int;
    lemma_end(target, width, events);
    lemma_mounted(target, width, events, len);
    if phase_after(target, width, events) is Done {
        let at = lemma_launched(target, width, events, len);
        assert(action_at(target, width, events, at) == Action::Launch && launches(events[at]));
    }
    assert forall|at: int|
        0 <= at < len && #[trigger] action_at(target, width, events, at) == Action::Launch
            && launches(events[at]) implies phase_after(target, width, events) is Done by {
        lemma_step(target, width, events, at);
        lemma_final(target, width, events, at + 1, len);
    }
}

} // verus!
