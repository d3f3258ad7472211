//! What holds of every run of the reconnection driver.
//!
//! A run is a starting state and the events that the host hands in, one
//! after the other. The laws below speak of runs through `run`, of the
//! association requests issued in a run through `requests`, and of the
//! notices that the budget is spent through `exhaustion_notices`.

use crate::driver::{Action, DriverView, Event, Phase};
use embassy_time::Duration;
use vstd::prelude::*;

verus! {

/// The state after all of `events`, taken in order from `start`.
pub open spec fn run(start: DriverView, events: Seq<Event>) -> DriverView
    decreases events.len(),
{
    if events.len() == 0 {
        start
    } else {
        run(start, events.drop_last()).next(events.last())
    }
}

/// Whether the step from `state` on `event` asks the host for an
/// association.
pub open spec fn issues_request(state: DriverView, event: Event) -> bool {
    state.expects(event) && state.command(event).action == Action::Associate
}

/// Whether the step from `state` on `event` reports that the budget is
/// spent.
pub open spec fn issues_exhaustion(state: DriverView, event: Event) -> bool {
    state.expects(event) && (state.command(event).notice matches Some(notice) && notice
        is Exhausted)
}

/// Number of association requests that the driver issues in a run.
pub open spec fn requests(start: DriverView, events: Seq<Event>) -> nat
    decreases events.len(),
{
    if events.len() == 0 {
        0
    } else if issues_request(run(start, events.drop_last()), events.last()) {
        requests(start, events.drop_last()) + 1
    } else {
        requests(start, events.drop_last())
    }
}

/// Number of notices in a run that the budget is spent.
pub open spec fn exhaustion_notices(start: DriverView, events: Seq<Event>) -> nat
    decreases events.len(),
{
    if events.len() == 0 {
        0
    } else if issues_exhaustion(run(start, events.drop_last()), events.last()) {
        exhaustion_notices(start, events.drop_last()) + 1
    } else {
        exhaustion_notices(start, events.drop_last())
    }
}

/// Whether the driver has come to rest for good.
pub open spec fn at_rest(state: DriverView) -> bool {
    state.phase == Phase::Exhausted || state.phase is Faulted
}

/// Whether the host plays its part in a run: as long as the driver waits
/// for an operation, the next event is an outcome of that operation.
pub open spec fn faithful(start: DriverView, events: Seq<Event>) -> bool
    decreases events.len(),
{
    if events.len() == 0 {
        true
    } else {
        let before = run(start, events.drop_last());
        faithful(start, events.drop_last()) && (at_rest(before) || before.expects(events.last()))
    }
}

/// Whether, among `events`, no association succeeds and the radio never
/// refuses its configuration or its start.
pub open spec fn every_attempt_fails(events: Seq<Event>) -> bool {
    forall|i: int|
        0 <= i < events.len() ==> {
            &&& #[trigger] events[i] != Event::Associated
            &&& events[i] != Event::ConfigureRefused
            &&& events[i] != Event::StartRefused
        }
}

/// How many events a driver in `state` can still take before it must be
/// exhausted, if every attempt fails: five for each request that is left,
/// less what the attempt under way has used up.
pub open spec fn events_left(state: DriverView) -> int {
    5 * (state.budget - state.attempts) + match state.phase {
        Phase::Configuring => -1,
        Phase::Starting => -2,
        Phase::AwaitingConnection => 2,
        Phase::CoolingDown => 1,
        _ => 0,
    }
}

/// Every step keeps a driver's state well formed.
pub proof fn law_step_keeps_well_formed(state: DriverView, event: Event)
    requires
        state.wf(),
    ensures
        state.next(event).wf(),
        state.next(event).budget == state.budget,
        state.next(event).cool_down == state.cool_down,
        state.next(event).credentials == state.credentials,
{
}

/// Bounded requests. Whatever the radio answers and whatever the host
/// hands in, the association requests of a run are counted by the driver,
/// and there are never more of them than the budget allows.
pub proof fn law_requests_within_budget(start: DriverView, events: Seq<Event>)
    requires
        start.wf(),
    ensures
        run(start, events).wf(),
        run(start, events).budget == start.budget,
        start.attempts + requests(start, events) == run(start, events).attempts,
        requests(start, events) <= start.budget,
    decreases events.len(),
{
    if events.len() > 0 {
        law_requests_within_budget(start, events.drop_last());
        law_step_keeps_well_formed(run(start, events.drop_last()), events.last());
    }
}

/// An exhausted driver stays as it is: it expects no event, its only word
/// to the host is `Halt`, and no run from it holds a request or a notice.
pub proof fn law_exhausted_is_final(state: DriverView, events: Seq<Event>)
    requires
        state.phase == Phase::Exhausted,
    ensures
        state.pending() == Action::Halt,
        forall|event: Event| !state.expects(event),
        run(state, events) == state,
        requests(state, events) == 0,
        exhaustion_notices(state, events) == 0,
    decreases events.len(),
{
    if events.len() > 0 {
        law_exhausted_is_final(state, events.drop_last());
    }
}

/// The budget is reported spent at most once in a run, and exactly once
/// in a run that leads a driver into exhaustion.
pub proof fn law_one_exhaustion_notice(start: DriverView, events: Seq<Event>)
    requires
        start.wf(),
        start.phase != Phase::Exhausted,
    ensures
        exhaustion_notices(start, events) == (if run(start, events).phase == Phase::Exhausted {
            1nat
        } else {
            0nat
        }),
        run(start, events).phase == Phase::Exhausted ==> start.attempts + requests(start, events)
            == start.budget,
    decreases events.len(),
{
    law_requests_within_budget(start, events);
    if events.len() > 0 {
        law_one_exhaustion_notice(start, events.drop_last());
        law_requests_within_budget(start, events.drop_last());
    }
}

proof fn lemma_failing_run(start: DriverView, events: Seq<Event>)
    requires
        start.wf(),
        start.phase == Phase::Probing,
        start.attempts == 0,
        faithful(start, events),
        every_attempt_fails(events),
    ensures
        ({
            let end = run(start, events);
            &&& end.wf()
            &&& end.budget == start.budget
            &&& (end.phase == Phase::Probing || end.phase == Phase::Configuring || end.phase
                == Phase::Starting || end.phase == Phase::AwaitingConnection || end.phase
                == Phase::CoolingDown || end.phase == Phase::Exhausted)
            &&& (end.phase == Phase::Exhausted || events_left(end) + events.len() <= 5
                * start.budget)
        }),
    decreases events.len(),
{
    if events.len() > 0 {
        let earlier = events.drop_last();
        assert(every_attempt_fails(earlier)) by {
            assert forall|i: int| 0 <= i < earlier.len() implies {
                &&& #[trigger] earlier[i] != Event::Associated
                &&& earlier[i] != Event::ConfigureRefused
                &&& earlier[i] != Event::StartRefused
            } by {
                assert(earlier[i] == events[i]);
            }
        }
        lemma_failing_run(start, earlier);
        let last = events[events.len() - 1];
        assert(last != Event::Associated && last != Event::ConfigureRefused && last
            != Event::StartRefused);
    }
}

/// Bounded retries. Take a driver that was just given its credentials and
/// has a budget of at least one request, and a host that plays its part.
/// If no association ever succeeds (and the radio never refuses its
/// configuration or its start), then, once five events for each allowed
/// request have been handed in, the driver is exhausted, it has issued
/// exactly as many association requests as its budget allows, and it has
/// reported exactly once that the budget is spent.
pub proof fn law_bounded_retries(
    budget: nat,
    cool_down: Duration,
    credentials: (Seq<char>, Seq<char>),
    events: Seq<Event>,
)
    requires
        1 <= budget <= usize::MAX,
        faithful(DriverView::unconfigured(budget, cool_down).supplied(credentials), events),
        every_attempt_fails(events),
        events.len() >= 5 * budget,
    ensures
        run(
            DriverView::unconfigured(budget, cool_down).supplied(credentials),
            events,
        ).phase == Phase::Exhausted,
        requests(DriverView::unconfigured(budget, cool_down).supplied(credentials), events)
            == budget,
        exhaustion_notices(
            DriverView::unconfigured(budget, cool_down).supplied(credentials),
            events,
        ) == 1,
{
    let start = DriverView::unconfigured(budget, cool_down).supplied(credentials);
    lemma_failing_run(start, events);
    law_one_exhaustion_notice(start, events);
}

/// Cool-down. After a failed association, and after the loss of a network
/// that the radio had confirmed, the driver asks for a pause of its
/// cool-down span and for nothing else.
pub proof fn law_cool_down_follows_failure(state: DriverView, event: Event)
    requires
        (state.phase == Phase::AwaitingConnection && event == Event::AssociationFailed) || (
        state.phase == Phase::Connected && event == Event::Disconnected),
    ensures
        state.expects(event),
        state.next(event).phase == Phase::CoolingDown,
        state.command(event).action == Action::Pause(state.cool_down),
{
}

/// Cool-down. A driver that pauses does nothing until it is told that the
/// pause is over: every other event is refused and leaves it pausing.
pub proof fn law_only_time_ends_cool_down(state: DriverView, events: Seq<Event>)
    requires
        state.phase == Phase::CoolingDown,
        forall|i: int| 0 <= i < events.len() ==> events[i] != Event::PauseElapsed,
    ensures
        run(state, events) == state,
        requests(state, events) == 0,
        forall|event: Event| state.expects(event) <==> event == Event::PauseElapsed,
    decreases events.len(),
{
    if events.len() > 0 {
        let earlier = events.drop_last();
        assert forall|i: int| 0 <= i < earlier.len() implies earlier[i]
            != Event::PauseElapsed by {
            assert(earlier[i] == events[i]);
        }
        law_only_time_ends_cool_down(state, earlier);
        assert(events[events.len() - 1] != Event::PauseElapsed);
    }
}

/// Idempotent start. A radio that reports itself started is neither
/// configured nor started again: the probe is followed at once by the
/// association request.
pub proof fn law_started_radio_is_left_alone(state: DriverView)
    requires
        state.phase == Phase::Probing,
    ensures
        state.expects(Event::RadioStarted),
        state.command(Event::RadioStarted).action == Action::Associate,
        state.next(Event::RadioStarted).phase == Phase::AwaitingConnection,
{
}

/// Configuration and start are asked for only after a probe that did not
/// find the radio started, and in that order.
pub proof fn law_configure_needs_idle_probe(state: DriverView, event: Event)
    requires
        state.expects(event),
    ensures
        state.command(event).action == Action::Configure <==> state.phase == Phase::Probing
            && event != Event::RadioStarted,
        state.command(event).action == Action::Start <==> state.phase == Phase::Configuring
            && event == Event::Configured,
{
}

} // verus!
