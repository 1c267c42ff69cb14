use discord_rpc::session::next_backoff;
use discord_rpc::session::step_conn;
use discord_rpc::session::BACKOFF_CEILING_MS;
use discord_rpc::session::BACKOFF_START_MS;
use discord_rpc::ConnState;
use discord_rpc::SessionEvent;

#[test]
fn handshake_walks_disconnected_to_connected() {
    let s0 = ConnState::Disconnected;
    let s1 = step_conn(s0, SessionEvent::ConnectStarted);
    assert_eq!(s1, ConnState::Connecting);
    let s2 = step_conn(s1, SessionEvent::HandshakeOk);
    assert_eq!(s2, ConnState::Connected);
}

#[test]
fn transport_error_drops_back_to_disconnected() {
    let s = step_conn(ConnState::Connected, SessionEvent::TransportError);
    assert_eq!(s, ConnState::Disconnected);
}

#[test]
fn failed_handshake_returns_to_disconnected() {
    let s = step_conn(ConnState::Connecting, SessionEvent::HandshakeFailed);
    assert_eq!(s, ConnState::Disconnected);
}

#[test]
fn inapplicable_events_leave_state_alone() {
    assert_eq!(
        step_conn(ConnState::Disconnected, SessionEvent::HandshakeOk),
        ConnState::Disconnected
    );
    assert_eq!(
        step_conn(ConnState::Disconnected, SessionEvent::TransportError),
        ConnState::Disconnected
    );
    assert_eq!(
        step_conn(ConnState::Connected, SessionEvent::ConnectStarted),
        ConnState::Connected
    );
    assert_eq!(
        step_conn(ConnState::Connected, SessionEvent::HandshakeOk),
        ConnState::Connected
    );
    assert_eq!(
        step_conn(ConnState::Connecting, SessionEvent::ConnectStarted),
        ConnState::Connecting
    );
}

#[test]
fn backoff_doubles_and_stays_bounded() {
    assert_eq!(next_backoff(BACKOFF_START_MS), 2000);
    assert_eq!(next_backoff(2000), 4000);
    assert_eq!(next_backoff(8000), 16000);
    assert_eq!(next_backoff(16000), BACKOFF_CEILING_MS);
    assert_eq!(next_backoff(BACKOFF_CEILING_MS), BACKOFF_CEILING_MS);
    let mut d = BACKOFF_START_MS;
    for _ in 0..20 {
        d = next_backoff(d);
        assert!(d <= BACKOFF_CEILING_MS);
    }
}
