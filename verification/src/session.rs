//! The connection state machine of the Rich Presence client session and the
//! reconnect backoff policy.

use vstd::prelude::*;

verus! {

/// Connection state of the session towards the local Discord client.
#[derive(Clone, Copy, PartialEq, Eq, Structural, Debug)]
pub enum ConnState {
    Disconnected,
    Connecting,
    Connected,
}

/// Connection-lifecycle event reported by the transport.
#[derive(Clone, Copy, PartialEq, Eq, Structural, Debug)]
pub enum SessionEvent {
    /// A connect attempt towards the local client was started.
    ConnectStarted,
    /// The handshake with the local client completed.
    HandshakeOk,
    /// The handshake failed or timed out.
    HandshakeFailed,
    /// The established connection dropped or a push on it failed.
    TransportError,
}

/// The transition table of the session: connects are attempted from
/// `Disconnected`, a handshake settles a `Connecting` attempt, and any
/// transport error while connected drops back to `Disconnected`. Events that
/// do not apply to the current state leave it unchanged.
pub open spec fn step(s: ConnState, ev: SessionEvent) -> ConnState {
    match (s, ev) {
        (ConnState::Disconnected, SessionEvent::ConnectStarted) => ConnState::Connecting,
        (ConnState::Connecting, SessionEvent::HandshakeOk) => ConnState::Connected,
        (ConnState::Connecting, SessionEvent::HandshakeFailed) => ConnState::Disconnected,
        (ConnState::Connected, SessionEvent::TransportError) => ConnState::Disconnected,
        _ => s,
    }
}

/// Executable form of the transition table.
pub fn step_conn(s: ConnState, ev: SessionEvent) -> (r: ConnState)
    ensures
        r == step(s, ev),
{
    match (s, ev) {
        (ConnState::Disconnected, SessionEvent::ConnectStarted) => ConnState::Connecting,
        (ConnState::Connecting, SessionEvent::HandshakeOk) => ConnState::Connected,
        (ConnState::Connecting, SessionEvent::HandshakeFailed) => ConnState::Disconnected,
        (ConnState::Connected, SessionEvent::TransportError) => ConnState::Disconnected,
        _ => s,
    }
}

/// The session entered `Connected` with this event.
pub open spec fn entered_connected(s: ConnState, ev: SessionEvent) -> bool {
    s != ConnState::Connected && step(s, ev) == ConnState::Connected
}

/// First delay before retrying a failed connect, in milliseconds.
pub const BACKOFF_START_MS: u64 = 1000;

/// Ceiling of the reconnect delay, in milliseconds: the peer is a local
/// client, so failures are frequent and transient and the wait stays short.
pub const BACKOFF_CEILING_MS: u64 = 16000;

/// Next reconnect delay after another failure: the delay doubles until it
/// reaches the ceiling, so repeated failures back off but stay bounded.
pub fn next_backoff(cur_ms: u64) -> (r: u64)
    ensures
        r == if cur_ms > BACKOFF_CEILING_MS / 2 {
            BACKOFF_CEILING_MS as int
        } else {
            2 * cur_ms
        },
        cur_ms <= BACKOFF_CEILING_MS ==> r <= BACKOFF_CEILING_MS,
        cur_ms >= 1 ==> r > cur_ms || r == BACKOFF_CEILING_MS as int,
{
    if cur_ms > BACKOFF_CEILING_MS / 2 {
        BACKOFF_CEILING_MS
    } else {
        2 * cur_ms
    }
}

} // verus!
