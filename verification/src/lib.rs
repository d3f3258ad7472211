//! Verified core of a Wi-Fi attachment manager.
//!
//! The crate holds the decisions of a station that attaches to a Wi-Fi
//! network and keeps the attachment alive: which credentials it uses, in
//! which order the radio is probed, configured, started and associated,
//! when it pauses and when it gives up, and when the network stack is
//! ready for use. Every decision is a function from a state and an event
//! to a next state and a request, so that a host can run it on any
//! scheduler: the host performs the request on the radio, the timer or
//! the network stack and hands the outcome back as the next event.

pub mod credentials;
pub mod driver;
pub mod handoff;
pub mod laws;
pub mod stack;
pub mod timing;

pub use credentials::{Credentials, CredentialsError, MAX_PASSWORD_BYTES, MAX_SSID_BYTES};
pub use driver::{
    connecting_loop, connection, connection_later, Action, AssociationState, Command, Event,
    Fault, Notice, Phase, ReconnectionDriver, Unexpected, RETRY_BUDGET,
};
pub use handoff::{HandOff, HAND_OFF_CAPACITY};
pub use stack::{stack_seed, ConnectionWait, WaitEvent, WaitPhase, WaitStep, WifiStack};
pub use timing::{COOL_DOWN_MS, POLL_INTERVAL_MS};
