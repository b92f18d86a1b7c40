//! Keeping the network link up: how long to wait for an address, and what the
//! supervisor of the connection does next.
//!
//! The supervisor runs for ever beside the control loop. It decides here; its
//! driver talks to the radio and reports back.

use vstd::prelude::*;

verus! {

/// Milliseconds between two looks at whether the network gave an address.
pub const ADDRESS_POLL_MILLIS: u64 = 500;

/// Milliseconds to wait after the link dropped, or after a connection attempt
/// failed, before the next attempt.
pub const RECONNECT_DELAY_MILLIS: u64 = 5000;

/// What to do while the link waits for its address.
#[derive(Clone, Copy, Debug, PartialEq, Eq, Structural)]
pub enum AddressWait {
    /// The address is there: the link is up.
    Ready,
    /// No address yet: look again after so many milliseconds.
    RetryAfter(u64),
}

/// Decides whether the link is up, from whether the network gave an address.
pub fn await_address(address_assigned: bool) -> (wait: AddressWait)
    ensures
        wait == if address_assigned {
            AddressWait::Ready
        } else {
            AddressWait::RetryAfter(ADDRESS_POLL_MILLIS)
        },
{
    if address_assigned {
        AddressWait::Ready
    } else {
        AddressWait::RetryAfter(ADDRESS_POLL_MILLIS)
    }
}

/// Where the supervisor stands. Each state waits for one report.
#[derive(Clone, Copy, Debug, PartialEq, Eq, Structural)]
pub enum Supervisor {
    /// Asking whether the station is connected.
    CheckingConnection,
    /// Connected: waiting for the link to drop.
    Connected,
    /// The link dropped: waiting out the delay.
    DelayAfterDrop,
    /// Asking whether the radio is started.
    CheckingRadio,
    /// Configuring and starting the radio.
    StartingRadio,
    /// Connecting to the network.
    Connecting,
    /// The attempt failed: waiting out the delay.
    DelayAfterFailure,
}

/// What the driver reports to the supervisor.
#[derive(Clone, Copy, Debug, PartialEq, Eq, Structural)]
pub enum LinkReport {
    /// Whether the station is connected.
    ConnectionIs(bool),
    /// The link dropped.
    Dropped,
    /// Whether the radio is known to be started.
    RadioStartedIs(bool),
    /// The radio was configured and started.
    RadioStarted,
    /// A connection attempt ended; `true` if it succeeded.
    ConnectEnded(bool),
    /// A delay is over.
    DelayOver,
}

/// What the supervisor asks its driver to do.
#[derive(Clone, Copy, Debug, PartialEq, Eq, Structural)]
pub enum LinkAction {
    /// Report whether the station is connected.
    QueryConnection,
    /// Wait until the link drops.
    AwaitDrop,
    /// Wait for so many milliseconds.
    Delay(u64),
    /// Report whether the radio is started.
    QueryRadio,
    /// Configure the radio as a client of the network and start it.
    StartRadio,
    /// Connect to the network.
    Connect,
}

/// The state after `report` in `state`. A report that the state does not wait
/// for changes nothing.
pub open spec fn supervise(state: Supervisor, report: LinkReport) -> Supervisor {
    match (state, report) {
        (Supervisor::CheckingConnection, LinkReport::ConnectionIs(true)) => Supervisor::Connected,
        (Supervisor::CheckingConnection, LinkReport::ConnectionIs(false)) => Supervisor::CheckingRadio,
        (Supervisor::Connected, LinkReport::Dropped) => Supervisor::DelayAfterDrop,
        (Supervisor::DelayAfterDrop, LinkReport::DelayOver) => Supervisor::CheckingRadio,
        (Supervisor::CheckingRadio, LinkReport::RadioStartedIs(true)) => Supervisor::Connecting,
        (Supervisor::CheckingRadio, LinkReport::RadioStartedIs(false)) => Supervisor::StartingRadio,
        (Supervisor::StartingRadio, LinkReport::RadioStarted) => Supervisor::Connecting,
        (Supervisor::Connecting, LinkReport::ConnectEnded(true)) => Supervisor::CheckingConnection,
        (Supervisor::Connecting, LinkReport::ConnectEnded(false)) => Supervisor::DelayAfterFailure,
        (Supervisor::DelayAfterFailure, LinkReport::DelayOver) => Supervisor::CheckingConnection,
        _ => state,
    }
}

/// The action that a state waits for.
pub open spec fn link_action(state: Supervisor) -> LinkAction {
    match state {
        Supervisor::CheckingConnection => LinkAction::QueryConnection,
        Supervisor::Connected => LinkAction::AwaitDrop,
        Supervisor::DelayAfterDrop => LinkAction::Delay(RECONNECT_DELAY_MILLIS),
        Supervisor::CheckingRadio => LinkAction::QueryRadio,
        Supervisor::StartingRadio => LinkAction::StartRadio,
        Supervisor::Connecting => LinkAction::Connect,
        Supervisor::DelayAfterFailure => LinkAction::Delay(RECONNECT_DELAY_MILLIS),
    }
}

impl Supervisor {
    /// The supervisor at its start.
    pub fn new() -> (state: Supervisor)
        ensures
            state == Supervisor::CheckingConnection,
    {
        Supervisor::CheckingConnection
    }

    /// The action that the supervisor waits for.
    pub fn awaited(self) -> (action: LinkAction)
        ensures
            action == link_action(self),
    {
        match self {
            Supervisor::CheckingConnection => LinkAction::QueryConnection,
            Supervisor::Connected => LinkAction::AwaitDrop,
            Supervisor::DelayAfterDrop => LinkAction::Delay(RECONNECT_DELAY_MILLIS),
            Supervisor::CheckingRadio => LinkAction::QueryRadio,
            Supervisor::StartingRadio => LinkAction::StartRadio,
            Supervisor::Connecting => LinkAction::Connect,
            Supervisor::DelayAfterFailure => LinkAction::Delay(RECONNECT_DELAY_MILLIS),
        }
    }

    /// Takes `report` in and says what to do next.
    pub fn step(self, report: LinkReport) -> (r: (Supervisor, LinkAction))
        ensures
            r.0 == supervise(self, report),
            r.1 == link_action(r.0),
    {
        let next = match (self, report) {
            (Supervisor::CheckingConnection, LinkReport::ConnectionIs(true)) => Supervisor::Connected,
            (Supervisor::CheckingConnection, LinkReport::ConnectionIs(false)) => {
                Supervisor::CheckingRadio
            },
            (Supervisor::Connected, LinkReport::Dropped) => Supervisor::DelayAfterDrop,
            (Supervisor::DelayAfterDrop, LinkReport::DelayOver) => Supervisor::CheckingRadio,
            (Supervisor::CheckingRadio, LinkReport::RadioStartedIs(true)) => Supervisor::Connecting,
            (Supervisor::CheckingRadio, LinkReport::RadioStartedIs(false)) => {
                Supervisor::StartingRadio
            },
            (Supervisor::StartingRadio, LinkReport::RadioStarted) => Supervisor::Connecting,
            (Supervisor::Connecting, LinkReport::ConnectEnded(true)) => {
                Supervisor::CheckingConnection
            },
            (Supervisor::Connecting, LinkReport::ConnectEnded(false)) => {
                Supervisor::DelayAfterFailure
            },
            (Supervisor::DelayAfterFailure, LinkReport::DelayOver) => Supervisor::CheckingConnection,
            (state, _) => state,
        };
        (next, next.awaited())
    }
}

/// A connection attempt follows a failed one, or a dropped link, only after
/// the delay: between the failure (or the drop) and the next attempt lies a
/// state that waits for the delay and leaves on nothing but its end.
pub proof fn lemma_reconnect_waits(report: LinkReport)
    ensures
        supervise(Supervisor::Connecting, LinkReport::ConnectEnded(false))
            == Supervisor::DelayAfterFailure,
        supervise(Supervisor::Connected, LinkReport::Dropped) == Supervisor::DelayAfterDrop,
        link_action(Supervisor::DelayAfterFailure) == LinkAction::Delay(RECONNECT_DELAY_MILLIS),
        link_action(Supervisor::DelayAfterDrop) == LinkAction::Delay(RECONNECT_DELAY_MILLIS),
        report != LinkReport::DelayOver ==> supervise(Supervisor::DelayAfterFailure, report)
            == Supervisor::DelayAfterFailure,
        report != LinkReport::DelayOver ==> supervise(Supervisor::DelayAfterDrop, report)
            == Supervisor::DelayAfterDrop,
{
}

} // verus!
