//! Watching whether Wi-Fi is enabled: the watcher listens to Network Manager's
//! `WirelessEnabled` property over a system bus connection, starts over on the
//! same connection when the property stream ends, and stops for good once Network
//! Manager could not be reached.

use vstd::prelude::*;

use crate::app::NmEvent;

verus! {

/// A system bus connection, which the watcher carries from one round to the
/// next.
#[verifier::external_type_specification]
#[verifier::external_body]
pub struct ExConnection(zbus::Connection);

/// Where the watcher stands between two rounds of listening.
#[derive(Debug)]
pub enum State {
    Continue(zbus::Connection),
    Error,
}

/// How a round of listening ended.
#[derive(Clone, Copy, Debug, PartialEq, Eq, Structural)]
pub enum RoundEnd {
    /// Network Manager could not be reached on the connection.
    ManagerUnreachable,
    /// The property stream ended.
    StreamEnded,
}

/// The connection to listen on next: the one carried over, or none after an
/// error, in which case the watcher waits forever.
pub fn connection_to_listen(state: State) -> (r: Option<zbus::Connection>)
    ensures
        match state {
            State::Continue(c) => r == Some(c),
            State::Error => r is None,
        },
{
    match state {
        State::Continue(c) => Some(c),
        State::Error => None,
    }
}

/// The state after a round: an unreachable Network Manager is an error, and an
/// ended stream starts over on the same connection.
pub fn state_after_round(conn: zbus::Connection, end: RoundEnd) -> (r: State)
    ensures
        end == RoundEnd::ManagerUnreachable ==> r is Error,
        end == RoundEnd::StreamEnded ==> r == State::Continue(conn),
{
    match end {
        RoundEnd::ManagerUnreachable => State::Error,
        RoundEnd::StreamEnded => State::Continue(conn),
    }
}

/// The event for one change of the property: its new value, when it could be
/// read; nothing otherwise.
pub fn wireless_change_event(value: Option<bool>) -> (r: Option<NmEvent>)
    ensures
        match value {
            Some(b) => r == Some(NmEvent::WiFiEnabled(b)),
            None => r is None,
        },
{
    match value {
        Some(b) => Some(NmEvent::WiFiEnabled(b)),
        None => None,
    }
}

} // verus!
