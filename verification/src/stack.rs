//! The stack facade and its assembly.
//!
//! `WifiStack` is what application code holds. It says when the network
//! stack is ready (`wait_for_connected`), which of the resolved addresses
//! a name query answers with (`dns_query`), and what becomes of a socket
//! after its connect (`make_and_connect_tcp_socket`). Making a `WifiStack`
//! also makes the reconnection driver that the host has to run beside it.

use crate::credentials::{rejection, CredentialsError};
use crate::driver::{
    connection, connection_later, Action, DriverView, Phase, ReconnectionDriver, Unexpected,
    RETRY_BUDGET,
};
use crate::timing::{span_from_millis, span_of_millis, COOL_DOWN_MS, POLL_INTERVAL_MS};
use embassy_net::{IpAddress, StaticConfigV4};
use embassy_time::Duration;
use vstd::prelude::*;

verus! {

/// `embassy_net::StaticConfigV4`, the IPv4 lease of the network stack:
/// address, gateway and name servers. The facade hands a lease on as it
/// got it.
#[verifier::external_type_specification]
#[verifier::external_body]
pub struct ExStaticConfigV4(embassy_net::StaticConfigV4);

/// `embassy_net::IpAddress`, an address that a name resolves to.
#[verifier::external_type_specification]
#[verifier::external_body]
pub struct ExIpAddress(embassy_net::IpAddress);

/// `embassy_net::dns::Error`, the network stack's reason for a failed
/// name query.
#[verifier::external_type_specification]
#[verifier::external_body]
pub struct ExDnsError(embassy_net::dns::Error);

/// `embassy_net::tcp::ConnectError`, the network stack's reason for a
/// failed connect.
#[verifier::external_type_specification]
#[verifier::external_body]
pub struct ExConnectError(embassy_net::tcp::ConnectError);

/// Joins two 32-bit words into the 64-bit seed of the network stack:
/// `high` fills the upper half and `low` the lower half.
pub fn stack_seed(high: u32, low: u32) -> (seed: u64)
    ensures
        seed == high * 0x1_0000_0000 + low,
{
    let upper: u64 = (high as u64) << 32;
    let lower: u64 = low as u64;
    assert(upper == high * 0x1_0000_0000) by (bit_vector)
        requires
            upper == (high as u64) << 32,
    ;
    assert(upper | lower == upper + lower) by (bit_vector)
        requires
            upper == (high as u64) << 32,
            lower == low as u64,
    ;
    upper | lower
}

/// How far a wait for the network stack has come.
#[derive(Clone, Copy, Debug, PartialEq, Eq, Structural)]
pub enum WaitPhase {
    /// The stack is asked whether the link is up.
    ProbingLink,
    /// The link was down: a pause runs before the next look.
    LinkPause,
    /// The link was seen up: the stack is asked for its lease.
    ProbingLease,
    /// There was no lease: a pause runs before the next look.
    LeasePause,
    /// The lease was handed out. Nothing follows.
    Ready,
}

/// The outcome of the operation that a wait was waiting for.
#[derive(Debug, PartialEq, Eq)]
pub enum WaitEvent {
    /// The stack said whether the link is up.
    Link(bool),
    /// The stack gave its lease, or said that it has none.
    Lease(Option<StaticConfigV4>),
    /// The pause is over.
    PauseElapsed,
}

/// What a wait asks of the host next, or what it ends with.
#[derive(Debug, PartialEq, Eq)]
pub enum WaitStep {
    /// Ask the stack whether the link is up.
    QueryLink,
    /// Ask the stack for its lease.
    QueryLease,
    /// Let this span of time pass.
    Pause(Duration),
    /// The stack is ready; this is its lease.
    Ready(StaticConfigV4),
}

/// The state of a wait, as mathematics.
pub struct WaitView {
    pub phase: WaitPhase,
    /// The pause between two looks at the stack.
    pub poll_interval: Duration,
}

impl WaitView {
    /// A wait that has not looked at the stack yet.
    pub open spec fn fresh(poll_interval: Duration) -> WaitView {
        WaitView { phase: WaitPhase::ProbingLink, poll_interval }
    }

    /// Whether `event` is an outcome of the operation that the wait waits
    /// for.
    pub open spec fn expects(self, event: WaitEvent) -> bool {
        match (self.phase, event) {
            (WaitPhase::ProbingLink, WaitEvent::Link(_)) => true,
            (WaitPhase::LinkPause, WaitEvent::PauseElapsed) => true,
            (WaitPhase::ProbingLease, WaitEvent::Lease(_)) => true,
            (WaitPhase::LeasePause, WaitEvent::PauseElapsed) => true,
            _ => false,
        }
    }

    /// The phase after `event`. An event that the wait does not expect
    /// changes nothing.
    pub open spec fn next_phase(self, event: WaitEvent) -> WaitPhase {
        match (self.phase, event) {
            (WaitPhase::ProbingLink, WaitEvent::Link(up)) => if up {
                WaitPhase::ProbingLease
            } else {
                WaitPhase::LinkPause
            },
            (WaitPhase::LinkPause, WaitEvent::PauseElapsed) => WaitPhase::ProbingLink,
            (WaitPhase::ProbingLease, WaitEvent::Lease(lease)) => if lease is Some {
                WaitPhase::Ready
            } else {
                WaitPhase::LeasePause
            },
            (WaitPhase::LeasePause, WaitEvent::PauseElapsed) => WaitPhase::ProbingLease,
            _ => self.phase,
        }
    }

    /// The state after `event`.
    pub open spec fn next(self, event: WaitEvent) -> WaitView {
        WaitView { phase: self.next_phase(event), ..self }
    }

    /// What the wait answers to an event that it expects.
    pub open spec fn answer(self, event: WaitEvent) -> WaitStep {
        match event {
            WaitEvent::Lease(Some(lease)) => WaitStep::Ready(lease),
            _ => match self.next_phase(event) {
                WaitPhase::ProbingLink => WaitStep::QueryLink,
                WaitPhase::ProbingLease => WaitStep::QueryLease,
                _ => WaitStep::Pause(self.poll_interval),
            },
        }
    }

    /// The operation that the wait waits for; nothing once it is over.
    pub open spec fn pending(self) -> Option<WaitStep> {
        match self.phase {
            WaitPhase::ProbingLink => Some(WaitStep::QueryLink),
            WaitPhase::ProbingLease => Some(WaitStep::QueryLease),
            WaitPhase::LinkPause => Some(WaitStep::Pause(self.poll_interval)),
            WaitPhase::LeasePause => Some(WaitStep::Pause(self.poll_interval)),
            WaitPhase::Ready => None,
        }
    }
}

/// One wait for the network stack to come up: first for the link, then
/// for the lease. It has no time limit of its own.
#[derive(Debug)]
pub struct ConnectionWait {
    phase: WaitPhase,
    poll_interval: Duration,
}

impl View for ConnectionWait {
    type V = WaitView;

    closed spec fn view(&self) -> WaitView {
        WaitView { phase: self.phase, poll_interval: self.poll_interval }
    }
}

impl ConnectionWait {
    /// A wait that has not looked at the stack yet and pauses for
    /// `poll_interval` between two looks.
    pub fn new(poll_interval: Duration) -> (wait: ConnectionWait)
        ensures
            wait@ == WaitView::fresh(poll_interval),
    {
        ConnectionWait { phase: WaitPhase::ProbingLink, poll_interval }
    }

    /// How far the wait has come.
    pub fn phase(&self) -> (phase: WaitPhase)
        ensures
            phase == self@.phase,
    {
        self.phase
    }

    /// The operation that the wait waits for; nothing once it is over.
    pub fn pending(&self) -> (step: Option<WaitStep>)
        ensures
            step == self@.pending(),
    {
        match self.phase {
            WaitPhase::ProbingLink => Some(WaitStep::QueryLink),
            WaitPhase::ProbingLease => Some(WaitStep::QueryLease),
            WaitPhase::LinkPause => Some(WaitStep::Pause(self.poll_interval)),
            WaitPhase::LeasePause => Some(WaitStep::Pause(self.poll_interval)),
            WaitPhase::Ready => None,
        }
    }

    /// Takes the outcome of the operation that the wait was waiting for.
    /// The answer is the next operation, or the lease as soon as the stack
    /// gives one after the link was seen up. An event that is no such
    /// outcome is refused and changes nothing.
    pub fn advance(&mut self, event: WaitEvent) -> (outcome: Result<WaitStep, Unexpected>)
        ensures
            outcome is Ok <==> old(self)@.expects(event),
            final(self)@ == old(self)@.next(event),
            outcome matches Ok(step) ==> step == old(self)@.answer(event),
    {
        match (self.phase, event) {
            (WaitPhase::ProbingLink, WaitEvent::Link(up)) => {
                if up {
                    self.phase = WaitPhase::ProbingLease;
                    Ok(WaitStep::QueryLease)
                } else {
                    self.phase = WaitPhase::LinkPause;
                    Ok(WaitStep::Pause(self.poll_interval))
                }
            },
            (WaitPhase::LinkPause, WaitEvent::PauseElapsed) => {
                self.phase = WaitPhase::ProbingLink;
                Ok(WaitStep::QueryLink)
            },
            (WaitPhase::ProbingLease, WaitEvent::Lease(lease)) => {
                match lease {
                    Some(lease) => {
                        self.phase = WaitPhase::Ready;
                        Ok(WaitStep::Ready(lease))
                    },
                    None => {
                        self.phase = WaitPhase::LeasePause;
                        Ok(WaitStep::Pause(self.poll_interval))
                    },
                }
            },
            (WaitPhase::LeasePause, WaitEvent::PauseElapsed) => {
                self.phase = WaitPhase::ProbingLease;
                Ok(WaitStep::QueryLease)
            },
            _ => Err(Unexpected),
        }
    }
}

/// The state of a wait after all of `events`, taken in order from a fresh
/// wait.
pub open spec fn wait_run(poll_interval: Duration, events: Seq<WaitEvent>) -> WaitView
    decreases events.len(),
{
    if events.len() == 0 {
        WaitView::fresh(poll_interval)
    } else {
        wait_run(poll_interval, events.drop_last()).next(events.last())
    }
}

/// Whether the stack reported the link up somewhere among `events`.
pub open spec fn link_seen_up(events: Seq<WaitEvent>) -> bool {
    exists|i: int| 0 <= i < events.len() && events[i] == WaitEvent::Link(true)
}

/// A wait leaves its first two phases only by a report that the link is
/// up.
pub proof fn law_lease_is_asked_after_link(poll_interval: Duration, events: Seq<WaitEvent>)
    ensures
        wait_run(poll_interval, events).poll_interval == poll_interval,
        (wait_run(poll_interval, events).phase != WaitPhase::ProbingLink && wait_run(
            poll_interval,
            events,
        ).phase != WaitPhase::LinkPause) ==> link_seen_up(events),
    decreases events.len(),
{
    if events.len() > 0 {
        let earlier = events.drop_last();
        law_lease_is_asked_after_link(poll_interval, earlier);
        if link_seen_up(earlier) {
            let i = choose|i: int| 0 <= i < earlier.len() && earlier[i] == WaitEvent::Link(true);
            assert(events[i] == WaitEvent::Link(true));
        } else if wait_run(poll_interval, events).phase != WaitPhase::ProbingLink && wait_run(
            poll_interval,
            events,
        ).phase != WaitPhase::LinkPause {
            assert(events[events.len() - 1] == WaitEvent::Link(true));
        }
    }
}

/// Readiness ordering. A wait hands out a lease only in answer to the
/// stack giving that very lease, and only after the stack reported the
/// link up; until both have happened it answers with further looks and
/// pauses.
pub proof fn law_ready_needs_link_and_lease(
    poll_interval: Duration,
    events: Seq<WaitEvent>,
    event: WaitEvent,
    lease: StaticConfigV4,
)
    requires
        wait_run(poll_interval, events).expects(event),
    ensures
        wait_run(poll_interval, events).answer(event) == WaitStep::Ready(lease) <==> (event
            == WaitEvent::Lease(Some(lease))),
        event == WaitEvent::Lease(Some(lease)) ==> link_seen_up(events),
{
    law_lease_is_asked_after_link(poll_interval, events);
}

/// The stack facade: the handle through which application code waits for
/// the network and uses it.
#[derive(Clone, Copy, Debug, PartialEq, Eq)]
pub struct WifiStack {
    poll_interval: Duration,
}

/// The text inside an optional string.
pub open spec fn text_of(text: Option<String>) -> Option<Seq<char>> {
    match text {
        Some(text) => Some(text@),
        None => None,
    }
}

/// Whether an assembly was given a source of credentials: both an
/// identifier and a secret, or the promise that credentials will be
/// delivered later.
pub open spec fn has_source(
    ssid: Option<Seq<char>>,
    password: Option<Seq<char>>,
    deferred: bool,
) -> bool {
    (ssid is Some && password is Some) || deferred
}

/// Why an assembly is refused, if it is: an identifier and a secret that
/// are both given must be within the radio's limits.
pub open spec fn assembly_rejection(ssid: Option<Seq<char>>, password: Option<Seq<char>>) -> Option<
    CredentialsError,
> {
    if ssid is Some && password is Some {
        rejection(ssid->0, password->0)
    } else {
        None
    }
}

/// The driver that an assembly makes: with an identifier and a secret it
/// has begun its first attempt, without them it waits for credentials.
pub open spec fn assembled_driver(ssid: Option<Seq<char>>, password: Option<Seq<char>>) -> DriverView {
    let waiting = DriverView::unconfigured(RETRY_BUDGET as nat, span_of_millis(COOL_DOWN_MS));
    if ssid is Some && password is Some {
        waiting.supplied((ssid->0, password->0))
    } else {
        waiting
    }
}

impl WifiStack {
    /// The pause between two looks at the network stack.
    pub closed spec fn poll_span(self) -> Duration {
        self.poll_interval
    }

    /// A facade whose waits pause for `poll_interval` between two looks
    /// at the network stack.
    pub fn with_poll_interval(poll_interval: Duration) -> (stack: WifiStack)
        ensures
            stack.poll_span() == poll_interval,
    {
        WifiStack { poll_interval }
    }

    /// The pause between two looks at the network stack.
    pub fn poll_interval(&self) -> (span: Duration)
        ensures
            span == self.poll_span(),
    {
        self.poll_interval
    }

    /// Assembles the facade and the reconnection driver. An identifier and
    /// a secret that are both given are used at once, whatever `deferred`
    /// says; otherwise the driver waits for credentials to be delivered.
    /// An assembly with neither is a mistake of the caller and is not
    /// allowed.
    pub fn new_internal(ssid: Option<String>, password: Option<String>, deferred: bool) -> (made:
        Result<(WifiStack, ReconnectionDriver), CredentialsError>)
        requires
            has_source(text_of(ssid), text_of(password), deferred),
        ensures
            made matches Err(error) ==> assembly_rejection(text_of(ssid), text_of(password))
                == Some(error),
            made matches Ok(pair) ==> {
                &&& assembly_rejection(text_of(ssid), text_of(password)) is None
                &&& pair.0.poll_span() == span_of_millis(POLL_INTERVAL_MS)
                &&& pair.1@ == assembled_driver(text_of(ssid), text_of(password))
                &&& pair.1@.wf()
            },
    {
        let stack = WifiStack::with_poll_interval(span_from_millis(POLL_INTERVAL_MS));
        match (ssid, password) {
            (Some(ssid), Some(password)) => {
                match connection(ssid, password) {
                    Ok(begun) => Ok((stack, begun.0)),
                    Err(error) => Err(error),
                }
            },
            _ => Ok((stack, connection_later())),
        }
    }

    /// Assembles a stack that connects at once with the given identifier
    /// and secret. The driver that comes with it has begun its first
    /// attempt and asks for a probe of the radio.
    pub fn new(ssid: String, password: String) -> (made: Result<
        (WifiStack, ReconnectionDriver),
        CredentialsError,
    >)
        ensures
            made matches Err(error) ==> rejection(ssid@, password@) == Some(error),
            made matches Ok(pair) ==> {
                &&& rejection(ssid@, password@) is None
                &&& pair.0.poll_span() == span_of_millis(POLL_INTERVAL_MS)
                &&& pair.1@ == assembled_driver(Some(ssid@), Some(password@))
                &&& pair.1@.phase == Phase::Probing
                &&& pair.1@.pending() == Action::QueryStarted
            },
    {
        WifiStack::new_internal(Some(ssid), Some(password), false)
    }

    /// Assembles a stack whose credentials arrive later. The driver that
    /// comes with it waits for them.
    pub fn new_connect_later() -> (made: (WifiStack, ReconnectionDriver))
        ensures
            made.0.poll_span() == span_of_millis(POLL_INTERVAL_MS),
            made.1@ == assembled_driver(None, None),
            made.1@.phase == Phase::Unconfigured,
            made.1@.pending() == Action::AwaitCredentials,
    {
        (WifiStack::with_poll_interval(span_from_millis(POLL_INTERVAL_MS)), connection_later())
    }

    /// Begins a wait for the network stack to come up. Every call begins a
    /// wait of its own.
    pub fn wait_for_connected(&self) -> (wait: ConnectionWait)
        ensures
            wait@ == WaitView::fresh(self.poll_span()),
            wait@.pending() == Some(WaitStep::QueryLink),
    {
        ConnectionWait::new(self.poll_interval)
    }

    /// Turns the network stack's answer to a name query into the facade's:
    /// the first of the resolved addresses, or the stack's error as it is.
    /// A successful answer holds at least one address.
    pub fn dns_query(&self, answer: Result<&[IpAddress], embassy_net::dns::Error>) -> (resolved:
        Result<IpAddress, embassy_net::dns::Error>)
        requires
            answer matches Ok(found) ==> found@.len() > 0,
        ensures
            answer matches Ok(found) ==> resolved == Ok::<IpAddress, embassy_net::dns::Error>(
                found@[0],
            ),
            answer matches Err(error) ==> resolved == Err::<IpAddress, embassy_net::dns::Error>(
                error,
            ),
    {
        match answer {
            Ok(found) => Ok(found[0]),
            Err(error) => Err(error),
        }
    }

    /// Turns the outcome of a socket's connect into the facade's answer:
    /// the socket itself once it is connected, or the stack's error as it
    /// is.
    pub fn make_and_connect_tcp_socket<S>(
        &self,
        socket: S,
        outcome: Result<(), embassy_net::tcp::ConnectError>,
    ) -> (connected: Result<S, embassy_net::tcp::ConnectError>)
        ensures
            outcome is Ok ==> connected == Ok::<S, embassy_net::tcp::ConnectError>(socket),
            outcome matches Err(error) ==> connected == Err::<S, embassy_net::tcp::ConnectError>(
                error,
            ),
    {
        match outcome {
            Ok(()) => Ok(socket),
            Err(error) => Err(error),
        }
    }
}

} // verus!
