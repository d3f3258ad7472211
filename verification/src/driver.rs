//! The reconnection driver: the unit of work that owns the radio and takes
//! it through probing, configuring, starting, associating, watching and
//! pausing, until its budget of attempts is spent.
//!
//! The driver never touches the radio itself. It names the one operation it
//! is waiting for (`Action`), the host performs it, and the outcome comes
//! back as an `Event`. `DriverView::next` is the whole table of
//! transitions; `ReconnectionDriver::step` is proved to follow it.

use crate::credentials::{rejection, Credentials, CredentialsError};
use crate::handoff::{after_receive, front, HandOff};
use crate::timing::{span_from_millis, span_of_millis, COOL_DOWN_MS};
use embassy_time::Duration;
use vstd::prelude::*;

verus! {

/// Number of association attempts that a driver makes for one pair of
/// credentials unless it is told otherwise.
pub const RETRY_BUDGET: usize = 10;

/// Where the radio says the station stands with respect to a network.
#[derive(Clone, Copy, Debug, PartialEq, Eq, Structural)]
pub enum AssociationState {
    /// The station is not running.
    Idle,
    /// The station is being started.
    Starting,
    /// The station runs and is attached to no network.
    Started,
    /// An association is under way.
    Connecting,
    /// The station is attached to a network.
    Connected,
    /// The station has lost its network.
    Disconnected,
}

/// A refusal of the radio that ends the driver's work for good.
#[derive(Clone, Copy, Debug, PartialEq, Eq, Structural)]
pub enum Fault {
    /// The radio refused the credentials as its configuration.
    Configure,
    /// The radio refused to start.
    Start,
}

/// The driver's place in its cycle. In every phase but the last two the
/// driver waits for the outcome of one operation.
#[derive(Clone, Copy, Debug, PartialEq, Eq, Structural)]
pub enum Phase {
    /// No credentials yet: waiting for them to be delivered.
    Unconfigured,
    /// An attempt begins: the radio is asked whether it is started.
    Probing,
    /// The credentials are being applied as the radio's configuration.
    Configuring,
    /// The radio is being started.
    Starting,
    /// An association request is under way.
    AwaitingConnection,
    /// The association succeeded: the radio is asked for its state.
    Confirming,
    /// Attached: waiting for the radio to report the loss of the network.
    Connected,
    /// The cool-down pause runs.
    CoolingDown,
    /// The budget is spent. Nothing follows.
    Exhausted,
    /// The radio refused configuration or start. Nothing follows.
    Faulted(Fault),
}

/// The outcome of the operation that the driver was waiting for.
#[derive(Clone, Copy, Debug, PartialEq, Eq, Structural)]
pub enum Event {
    /// The radio answered that it is started.
    RadioStarted,
    /// The radio answered that it is not started.
    RadioStopped,
    /// The radio could not say whether it is started.
    RadioUnreadable,
    /// The radio took the configuration.
    Configured,
    /// The radio refused the configuration.
    ConfigureRefused,
    /// The radio started.
    Started,
    /// The radio refused to start.
    StartRefused,
    /// The association request succeeded.
    Associated,
    /// The association request failed.
    AssociationFailed,
    /// The radio reported this association state.
    Observed(AssociationState),
    /// The radio reported that the network was lost.
    Disconnected,
    /// The pause is over.
    PauseElapsed,
}

/// The one operation that the driver waits for.
#[derive(Clone, Copy, Debug, PartialEq, Eq)]
pub enum Action {
    /// Wait until credentials arrive and deliver them.
    AwaitCredentials,
    /// Ask the radio whether it is started.
    QueryStarted,
    /// Apply the driver's credentials as the radio's configuration.
    Configure,
    /// Start the radio.
    Start,
    /// Request an association.
    Associate,
    /// Ask the radio for its association state.
    QueryAssociation,
    /// Wait until the radio reports the loss of the network.
    AwaitDisconnect,
    /// Let this span of time pass.
    Pause(Duration),
    /// Give up for good: the radio is unusable.
    Abort(Fault),
    /// Nothing more to do, now or later.
    Halt,
}

/// Something that the host should bring to an operator's attention.
#[derive(Clone, Copy, Debug, PartialEq, Eq, Structural)]
pub enum Notice {
    /// An association request failed; the driver will pause.
    AssociationFailed,
    /// The budget is spent after this many association requests.
    Exhausted { attempts: usize },
}

/// What a step of the driver hands to the host: a notice, if the step
/// gave rise to one, and the operation to perform next.
#[derive(Clone, Copy, Debug, PartialEq, Eq)]
pub struct Command {
    pub notice: Option<Notice>,
    pub action: Action,
}

/// The answer to an event that is no outcome of the operation that the
/// driver waits for.
#[derive(Clone, Copy, Debug, PartialEq, Eq, Structural)]
pub struct Unexpected;

/// The state of a driver, as mathematics.
pub struct DriverView {
    pub phase: Phase,
    /// Association requests issued so far.
    pub attempts: nat,
    /// Association requests allowed in all.
    pub budget: nat,
    /// The pause after a failure and after a lost connection.
    pub cool_down: Duration,
    /// The driver's credentials, once delivered: identifier and secret.
    pub credentials: Option<(Seq<char>, Seq<char>)>,
}

impl DriverView {
    /// What holds of the state of every driver.
    pub open spec fn wf(self) -> bool {
        &&& self.attempts <= self.budget <= usize::MAX
        &&& (self.phase == Phase::Probing || self.phase == Phase::Configuring || self.phase
            == Phase::Starting) ==> self.attempts < self.budget
        &&& self.phase == Phase::Exhausted ==> self.attempts == self.budget
        &&& self.phase == Phase::Unconfigured ==> self.attempts == 0
        &&& self.phase == Phase::Unconfigured <==> self.credentials is None
    }

    /// A driver that has no credentials yet.
    pub open spec fn unconfigured(budget: nat, cool_down: Duration) -> DriverView {
        DriverView {
            phase: Phase::Unconfigured,
            attempts: 0,
            budget,
            cool_down,
            credentials: None,
        }
    }

    /// The same state in another phase.
    pub open spec fn at(self, phase: Phase) -> DriverView {
        DriverView { phase, ..self }
    }

    /// The state in which the next attempt begins, or in which the driver
    /// rests when no attempt is left.
    pub open spec fn begin(self) -> DriverView {
        if self.attempts < self.budget {
            self.at(Phase::Probing)
        } else {
            self.at(Phase::Exhausted)
        }
    }

    /// The state in which one more association request is under way.
    pub open spec fn associating(self) -> DriverView {
        DriverView { phase: Phase::AwaitingConnection, attempts: self.attempts + 1, ..self }
    }

    /// The state after credentials were delivered to a driver that had
    /// none.
    pub open spec fn supplied(self, credentials: (Seq<char>, Seq<char>)) -> DriverView {
        DriverView { credentials: Some(credentials), ..self }.begin()
    }

    /// Whether `event` is an outcome of the operation that the driver
    /// waits for.
    pub open spec fn expects(self, event: Event) -> bool {
        match (self.phase, event) {
            (Phase::Probing, Event::RadioStarted) => true,
            (Phase::Probing, Event::RadioStopped) => true,
            (Phase::Probing, Event::RadioUnreadable) => true,
            (Phase::Configuring, Event::Configured) => true,
            (Phase::Configuring, Event::ConfigureRefused) => true,
            (Phase::Starting, Event::Started) => true,
            (Phase::Starting, Event::StartRefused) => true,
            (Phase::AwaitingConnection, Event::Associated) => true,
            (Phase::AwaitingConnection, Event::AssociationFailed) => true,
            (Phase::Confirming, Event::Observed(_)) => true,
            (Phase::Connected, Event::Disconnected) => true,
            (Phase::CoolingDown, Event::PauseElapsed) => true,
            _ => false,
        }
    }

    /// The state after `event`. An event that the driver does not expect
    /// changes nothing.
    pub open spec fn next(self, event: Event) -> DriverView {
        match (self.phase, event) {
            (Phase::Probing, Event::RadioStarted) => self.associating(),
            (Phase::Probing, Event::RadioStopped) => self.at(Phase::Configuring),
            (Phase::Probing, Event::RadioUnreadable) => self.at(Phase::Configuring),
            (Phase::Configuring, Event::Configured) => self.at(Phase::Starting),
            (Phase::Configuring, Event::ConfigureRefused) => self.at(
                Phase::Faulted(Fault::Configure),
            ),
            (Phase::Starting, Event::Started) => self.associating(),
            (Phase::Starting, Event::StartRefused) => self.at(Phase::Faulted(Fault::Start)),
            (Phase::AwaitingConnection, Event::Associated) => self.at(Phase::Confirming),
            (Phase::AwaitingConnection, Event::AssociationFailed) => self.at(Phase::CoolingDown),
            (Phase::Confirming, Event::Observed(state)) => if state
                == AssociationState::Connected {
                self.at(Phase::Connected)
            } else {
                self.begin()
            },
            (Phase::Connected, Event::Disconnected) => self.at(Phase::CoolingDown),
            (Phase::CoolingDown, Event::PauseElapsed) => self.begin(),
            _ => self,
        }
    }

    /// The notice that goes with a move from `self` to `after`: a failed
    /// association is reported when the pause for it begins, the end of
    /// the budget when the driver comes to rest.
    pub open spec fn notice_on(self, after: DriverView) -> Option<Notice> {
        if self.phase == Phase::AwaitingConnection && after.phase == Phase::CoolingDown {
            Some(Notice::AssociationFailed)
        } else if self.phase != Phase::Exhausted && after.phase == Phase::Exhausted {
            Some(Notice::Exhausted { attempts: after.attempts as usize })
        } else {
            None
        }
    }

    /// The notice that a step on `event` gives rise to.
    pub open spec fn notice(self, event: Event) -> Option<Notice> {
        self.notice_on(self.next(event))
    }

    /// The operation that the driver waits for.
    pub open spec fn pending(self) -> Action {
        match self.phase {
            Phase::Unconfigured => Action::AwaitCredentials,
            Phase::Probing => Action::QueryStarted,
            Phase::Configuring => Action::Configure,
            Phase::Starting => Action::Start,
            Phase::AwaitingConnection => Action::Associate,
            Phase::Confirming => Action::QueryAssociation,
            Phase::Connected => Action::AwaitDisconnect,
            Phase::CoolingDown => Action::Pause(self.cool_down),
            Phase::Exhausted => Action::Halt,
            Phase::Faulted(fault) => Action::Abort(fault),
        }
    }

    /// What a step on `event` hands to the host.
    pub open spec fn command(self, event: Event) -> Command {
        Command { notice: self.notice(event), action: self.next(event).pending() }
    }
}

/// The reconnection driver. It is made without credentials or with them,
/// and from then on moves only by `deliver` and `step`.
#[derive(Debug)]
pub struct ReconnectionDriver {
    phase: Phase,
    attempts: usize,
    budget: usize,
    cool_down: Duration,
    credentials: Option<Credentials>,
}

impl View for ReconnectionDriver {
    type V = DriverView;

    closed spec fn view(&self) -> DriverView {
        DriverView {
            phase: self.phase,
            attempts: self.attempts as nat,
            budget: self.budget as nat,
            cool_down: self.cool_down,
            credentials: match self.credentials {
                Some(credentials) => Some(credentials@),
                None => None,
            },
        }
    }
}

impl ReconnectionDriver {
    #[verifier::type_invariant]
    spec fn sound(self) -> bool {
        self@.wf()
    }

    /// A driver without credentials that will make `retries` association
    /// attempts and pause for `cool_down` after a failure and after a lost
    /// connection.
    pub fn with_policy(retries: usize, cool_down: Duration) -> (driver: ReconnectionDriver)
        ensures
            driver@ == DriverView::unconfigured(retries as nat, cool_down),
            driver@.wf(),
    {
        ReconnectionDriver {
            phase: Phase::Unconfigured,
            attempts: 0,
            budget: retries,
            cool_down,
            credentials: None,
        }
    }

    /// The driver's phase.
    pub fn phase(&self) -> (phase: Phase)
        ensures
            phase == self@.phase,
    {
        self.phase
    }

    /// Association requests issued so far.
    pub fn attempts(&self) -> (attempts: usize)
        ensures
            attempts == self@.attempts,
            attempts <= self@.budget,
    {
        proof {
            use_type_invariant(self);
        }
        self.attempts
    }

    /// Association requests allowed in all.
    pub fn budget(&self) -> (budget: usize)
        ensures
            budget == self@.budget,
    {
        self.budget
    }

    /// The pause after a failure and after a lost connection.
    pub fn cool_down(&self) -> (span: Duration)
        ensures
            span == self@.cool_down,
    {
        self.cool_down
    }

    /// The driver's credentials, once they were delivered. They are what
    /// `Action::Configure` asks the host to apply.
    pub fn credentials(&self) -> (held: Option<&Credentials>)
        ensures
            held is Some <==> self@.phase != Phase::Unconfigured,
            held matches Some(credentials) ==> self@.credentials == Some(credentials@),
    {
        proof {
            use_type_invariant(self);
        }
        self.credentials.as_ref()
    }

    /// The operation that the driver waits for.
    pub fn pending(&self) -> (action: Action)
        ensures
            action == self@.pending(),
    {
        match self.phase {
            Phase::Unconfigured => Action::AwaitCredentials,
            Phase::Probing => Action::QueryStarted,
            Phase::Configuring => Action::Configure,
            Phase::Starting => Action::Start,
            Phase::AwaitingConnection => Action::Associate,
            Phase::Confirming => Action::QueryAssociation,
            Phase::Connected => Action::AwaitDisconnect,
            Phase::CoolingDown => Action::Pause(self.cool_down),
            Phase::Exhausted => Action::Halt,
            Phase::Faulted(fault) => Action::Abort(fault),
        }
    }

    /// The phase in which the next attempt begins, or `Exhausted` when no
    /// attempt is left.
    fn opening(&self) -> (phase: Phase)
        ensures
            phase == self@.begin().phase,
    {
        if self.attempts < self.budget {
            Phase::Probing
        } else {
            Phase::Exhausted
        }
    }

    /// The phase that follows `event`, or nothing where the driver does
    /// not expect the event.
    fn successor(&self, event: Event) -> (phase: Option<Phase>)
        ensures
            phase is Some <==> self@.expects(event),
            phase matches Some(after) ==> after == self@.next(event).phase,
    {
        match (self.phase, event) {
            (Phase::Probing, Event::RadioStarted) => Some(Phase::AwaitingConnection),
            (Phase::Probing, Event::RadioStopped) => Some(Phase::Configuring),
            (Phase::Probing, Event::RadioUnreadable) => Some(Phase::Configuring),
            (Phase::Configuring, Event::Configured) => Some(Phase::Starting),
            (Phase::Configuring, Event::ConfigureRefused) => Some(Phase::Faulted(Fault::Configure)),
            (Phase::Starting, Event::Started) => Some(Phase::AwaitingConnection),
            (Phase::Starting, Event::StartRefused) => Some(Phase::Faulted(Fault::Start)),
            (Phase::AwaitingConnection, Event::Associated) => Some(Phase::Confirming),
            (Phase::AwaitingConnection, Event::AssociationFailed) => Some(Phase::CoolingDown),
            (Phase::Confirming, Event::Observed(state)) => {
                if state == AssociationState::Connected {
                    Some(Phase::Connected)
                } else {
                    Some(self.opening())
                }
            },
            (Phase::Connected, Event::Disconnected) => Some(Phase::CoolingDown),
            (Phase::CoolingDown, Event::PauseElapsed) => Some(self.opening()),
            _ => None,
        }
    }

    /// Moves to `after` and says what the host is to do. An association
    /// request is counted as the driver begins to wait for its outcome.
    fn enter(&mut self, after: Phase) -> (command: Command)
        requires
            after != Phase::Unconfigured,
            old(self)@.phase != Phase::Unconfigured,
            old(self)@.phase != Phase::Exhausted,
            after == Phase::AwaitingConnection ==> old(self)@.attempts < old(self)@.budget,
            after == Phase::Exhausted ==> old(self)@.attempts == old(self)@.budget,
            (after == Phase::Probing || after == Phase::Configuring || after == Phase::Starting)
                ==> old(self)@.attempts < old(self)@.budget,
        ensures
            final(self)@ == (if after == Phase::AwaitingConnection {
                old(self)@.associating()
            } else {
                old(self)@.at(after)
            }),
            command.notice == old(self)@.notice_on(final(self)@),
            command.action == final(self)@.pending(),
    {
        proof {
            use_type_invariant(&*self);
        }
        let before: Phase = self.phase;
        self.phase = after;
        if after == Phase::AwaitingConnection {
            self.attempts = self.attempts + 1;
        }
        let notice: Option<Notice> = if before == Phase::AwaitingConnection && after
            == Phase::CoolingDown {
            Some(Notice::AssociationFailed)
        } else if after == Phase::Exhausted {
            Some(Notice::Exhausted { attempts: self.attempts })
        } else {
            None
        };
        Command { notice, action: self.pending() }
    }

    /// Takes the outcome of the operation that the driver was waiting for
    /// and answers with the next operation. An event that is no such
    /// outcome is refused and changes nothing.
    pub fn step(&mut self, event: Event) -> (outcome: Result<Command, Unexpected>)
        ensures
            outcome is Ok <==> old(self)@.expects(event),
            final(self)@ == old(self)@.next(event),
            outcome matches Ok(command) ==> command == old(self)@.command(event),
            final(self)@.wf(),
    {
        proof {
            use_type_invariant(&*self);
        }
        match self.successor(event) {
            Some(after) => Ok(self.enter(after)),
            None => Err(Unexpected),
        }
    }

    /// Hands credentials to a driver that has none: its first attempt
    /// begins. A driver that has credentials keeps them and hands the new
    /// ones back.
    pub fn deliver(&mut self, credentials: Credentials) -> (outcome: Result<Command, Credentials>)
        ensures
            outcome is Ok <==> old(self)@.phase == Phase::Unconfigured,
            outcome matches Ok(command) ==> {
                &&& final(self)@ == old(self)@.supplied(credentials@)
                &&& command.notice == old(self)@.notice_on(final(self)@)
                &&& command.action == final(self)@.pending()
            },
            outcome matches Err(back) ==> back == credentials && final(self)@ == old(self)@,
            final(self)@.wf(),
    {
        proof {
            use_type_invariant(&*self);
        }
        if self.phase == Phase::Unconfigured {
            let after: Phase = self.opening();
            *self = ReconnectionDriver {
                phase: after,
                attempts: self.attempts,
                budget: self.budget,
                cool_down: self.cool_down,
                credentials: Some(credentials),
            };
            let notice: Option<Notice> = if after == Phase::Exhausted {
                Some(Notice::Exhausted { attempts: self.attempts })
            } else {
                None
            };
            Ok(Command { notice, action: self.pending() })
        } else {
            Err(credentials)
        }
    }

    /// Looks into the hand-off slot on behalf of a driver that has no
    /// credentials. If the slot holds some, the oldest are taken out and
    /// delivered, and the first attempt begins. An empty slot means that
    /// the driver goes on waiting. A driver that has credentials leaves
    /// the slot alone.
    pub fn poll_credentials(&mut self, slot: &mut HandOff) -> (outcome: Option<Command>)
        ensures
            outcome is Some <==> old(self)@.phase == Phase::Unconfigured && front(old(slot)@)
                is Some,
            outcome matches Some(command) ==> {
                &&& final(self)@ == old(self)@.supplied(front(old(slot)@)->0)
                &&& final(slot)@ == after_receive(old(slot)@)
                &&& command.notice == old(self)@.notice_on(final(self)@)
                &&& command.action == final(self)@.pending()
            },
            outcome is None ==> final(self)@ == old(self)@ && final(slot)@ == old(slot)@,
            final(self)@.wf(),
    {
        proof {
            use_type_invariant(&*self);
        }
        if self.phase == Phase::Unconfigured {
            match slot.try_receive() {
                Some(credentials) => {
                    match self.deliver(credentials) {
                        Ok(command) => Some(command),
                        Err(_) => None,
                    }
                },
                None => None,
            }
        } else {
            None
        }
    }
}

/// Begins the reconnection loop for `credentials` with a budget of
/// `retries` association attempts and the fixed cool-down. The command is
/// the loop's first: a probe of the radio, or, with no attempt allowed,
/// the notice that the budget is spent.
pub fn connecting_loop(credentials: Credentials, retries: usize) -> (begun: (
    ReconnectionDriver,
    Command,
))
    ensures
        begun.0@ == DriverView::unconfigured(
            retries as nat,
            span_of_millis(COOL_DOWN_MS),
        ).supplied(credentials@),
        begun.1.notice == DriverView::unconfigured(
            retries as nat,
            span_of_millis(COOL_DOWN_MS),
        ).notice_on(begun.0@),
        begun.1.action == begun.0@.pending(),
        begun.0@.wf(),
{
    let mut driver = ReconnectionDriver::with_policy(retries, span_from_millis(COOL_DOWN_MS));
    match driver.deliver(credentials) {
        Ok(command) => (driver, command),
        Err(_) => {
            let command = Command { notice: None, action: driver.pending() };
            (driver, command)
        },
    }
}

/// The unit of work for credentials that are known from the start: checks
/// the identifier and the secret against the radio's limits and begins the
/// reconnection loop with the usual budget.
pub fn connection(ssid: String, password: String) -> (begun: Result<
    (ReconnectionDriver, Command),
    CredentialsError,
>)
    ensures
        begun matches Err(error) ==> rejection(ssid@, password@) == Some(error),
        begun matches Ok(pair) ==> {
            &&& rejection(ssid@, password@) is None
            &&& pair.0@ == DriverView::unconfigured(
                RETRY_BUDGET as nat,
                span_of_millis(COOL_DOWN_MS),
            ).supplied((ssid@, password@))
            &&& pair.0@.phase == Phase::Probing
            &&& pair.1 == (Command { notice: None, action: Action::QueryStarted })
        },
{
    match Credentials::new(ssid, password) {
        Ok(credentials) => Ok(connecting_loop(credentials, RETRY_BUDGET)),
        Err(error) => Err(error),
    }
}

/// The unit of work for credentials that arrive later: a driver with the
/// usual budget that waits for `deliver`.
pub fn connection_later() -> (driver: ReconnectionDriver)
    ensures
        driver@ == DriverView::unconfigured(RETRY_BUDGET as nat, span_of_millis(COOL_DOWN_MS)),
        driver@.pending() == Action::AwaitCredentials,
{
    ReconnectionDriver::with_policy(RETRY_BUDGET, span_from_millis(COOL_DOWN_MS))
}

} // verus!
