//! The client's view of its connection to the server: whether it is up,
//! and whether the user was already told that it went down. A drop is
//! reported once, a reconnect after a reported drop is reported once, and
//! the session is reopened only after such a drop.

use vstd::prelude::*;

verus! {

#[derive(Debug, Clone, Copy, PartialEq, Eq, Structural)]
pub enum ProtocolConnectionState {
    Disconnected,
    Connected,
}

#[derive(Debug, Clone, Copy, PartialEq, Eq, Structural)]
pub struct ConnectionStatus {
    pub state: ProtocolConnectionState,
    pub disconnected_status_reported: bool,
}

/// The status line for a reconnect to `endpoint`.
pub open spec fn reconnected_message(endpoint: Seq<char>) -> Seq<char> {
    "UI protocol reconnected to "@ + endpoint + "."@
}

/// The state after a connect, and the status line it produces: one only
/// when a drop had been reported.
pub open spec fn spec_mark_connected(s: ConnectionStatus, endpoint: Seq<char>) -> (ConnectionStatus, Option<Seq<char>>) {
    (
        ConnectionStatus { state: ProtocolConnectionState::Connected, disconnected_status_reported: false },
        if s.disconnected_status_reported { Some(reconnected_message(endpoint)) } else { None },
    )
}

/// The state after a drop, and the status line it produces: `message`,
/// unless the drop was already reported while disconnected.
pub open spec fn spec_mark_disconnected(s: ConnectionStatus, message: Seq<char>) -> (ConnectionStatus, Option<Seq<char>>) {
    (
        ConnectionStatus { state: ProtocolConnectionState::Disconnected, disconnected_status_reported: true },
        if s.state != ProtocolConnectionState::Disconnected || !s.disconnected_status_reported {
            Some(message)
        } else {
            None
        },
    )
}

pub open spec fn opt_view(o: Option<String>) -> Option<Seq<char>> {
    match o {
        Some(s) => Some(s@),
        None => None,
    }
}

impl ConnectionStatus {
    /// Not connected yet, nothing reported.
    pub fn new() -> (r: Self)
        ensures
            r == (ConnectionStatus { state: ProtocolConnectionState::Disconnected, disconnected_status_reported: false }),
    {
        ConnectionStatus { state: ProtocolConnectionState::Disconnected, disconnected_status_reported: false }
    }

    pub fn is_connected(&self) -> (r: bool)
        ensures
            r == (self.state == ProtocolConnectionState::Connected),
    {
        match self.state {
            ProtocolConnectionState::Connected => true,
            ProtocolConnectionState::Disconnected => false,
        }
    }

    /// Whether a connect should reopen the launch session: only after a
    /// reported drop, and only when there is a session.
    pub fn should_reopen_session(&self, has_session: bool) -> (r: bool)
        ensures
            r == (self.disconnected_status_reported && has_session),
    {
        self.disconnected_status_reported && has_session
    }

    /// Record a connect to `endpoint` (see [`spec_mark_connected`]).
    pub fn mark_connected(&mut self, endpoint: &str) -> (r: Option<String>)
        ensures
            *final(self) == spec_mark_connected(*old(self), endpoint@).0,
            opt_view(r) == spec_mark_connected(*old(self), endpoint@).1,
    {
        let report = self.disconnected_status_reported;
        self.state = ProtocolConnectionState::Connected;
        self.disconnected_status_reported = false;
        if report {
            let mut m = String::from_str("UI protocol reconnected to ");
            m.append(endpoint);
            m.append(".");
            Some(m)
        } else {
            None
        }
    }

    /// Record a drop with `message` (see [`spec_mark_disconnected`]).
    pub fn mark_disconnected(&mut self, message: String) -> (r: Option<String>)
        ensures
            *final(self) == spec_mark_disconnected(*old(self), message@).0,
            opt_view(r) == spec_mark_disconnected(*old(self), message@).1,
    {
        let report = match self.state {
            ProtocolConnectionState::Connected => true,
            ProtocolConnectionState::Disconnected => !self.disconnected_status_reported,
        };
        self.state = ProtocolConnectionState::Disconnected;
        self.disconnected_status_reported = true;
        if report {
            Some(message)
        } else {
            None
        }
    }
}

/// A drop is reported once: a second drop before any reconnect produces no
/// status line.
pub proof fn law_drop_reported_once(s: ConnectionStatus, first: Seq<char>, second: Seq<char>)
    ensures
        spec_mark_disconnected(spec_mark_disconnected(s, first).0, second).1 is None,
{
}

/// A connection that was up reports its drop.
pub proof fn law_live_drop_is_reported(s: ConnectionStatus, message: Seq<char>)
    requires
        s.state == ProtocolConnectionState::Connected,
    ensures
        spec_mark_disconnected(s, message).1 == Some(message),
{
}

/// After a reported drop the next connect says so, once; a connect that
/// follows it says nothing more.
pub proof fn law_reconnect_reported_once(s: ConnectionStatus, message: Seq<char>, endpoint: Seq<char>)
    ensures
        ({
            let dropped = spec_mark_disconnected(s, message).0;
            let (up, line) = spec_mark_connected(dropped, endpoint);
            &&& line == Some(reconnected_message(endpoint))
            &&& spec_mark_connected(up, endpoint).1 is None
        }),
{
}

/// Reconnecting and dropping again reports the new drop: a reconnect
/// resets what was reported.
pub proof fn law_drop_after_reconnect_is_reported(s: ConnectionStatus, first: Seq<char>, endpoint: Seq<char>, second: Seq<char>)
    ensures
        spec_mark_disconnected(spec_mark_connected(spec_mark_disconnected(s, first).0, endpoint).0, second).1
            == Some(second),
{
}

} // verus!
