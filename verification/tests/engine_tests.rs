use discord_rpc::ConnState;
use discord_rpc::GameState;
use discord_rpc::GameStateStruct;
use discord_rpc::PresenceEngine;
use discord_rpc::SessionEvent;
use discord_rpc::UIPresenceStruct;

fn match_snapshot() -> (GameStateStruct, UIPresenceStruct) {
    (
        GameStateStruct {
            state: GameState::InMatch,
            map: "mp_glitch".to_string(),
            playlist: "tdm".to_string(),
            players: 4,
            max_players: 8,
        },
        UIPresenceStruct {
            menu_screen: String::new(),
            party_visible: true,
        },
    )
}

fn connect(engine: &mut PresenceEngine) {
    engine.on_session_event(SessionEvent::ConnectStarted);
    engine.on_session_event(SessionEvent::HandshakeOk);
}

#[test]
fn fresh_engine_shows_loading_placeholder() {
    let e = PresenceEngine::new();
    let a = e.fetch_presence();
    assert_eq!(a.state, "Loading...");
    assert_eq!(a.details, "");
    assert_eq!(a.party, None);
    assert_eq!(a.large_image.as_deref(), Some("northstar"));
    assert_eq!(a.start, None);
    assert_eq!(a.last_state, GameState::Loading);
    assert_eq!(a.secrets.match_secret, "");
    assert!(a.secrets.join.is_none());
    assert!(a.secrets.spectate.is_none());
}

#[test]
fn session_start_issues_fresh_secrets() {
    let mut e = PresenceEngine::new();
    connect(&mut e);
    let (g, u) = match_snapshot();
    e.write_snapshot(g, u);
    let payload = e.tick(1, false).expect("the session-starting tick must push");
    assert_eq!(payload.secrets.match_secret.len(), 36);
    assert_eq!(payload.secrets.join.as_ref().unwrap().len(), 36);
    assert!(payload.secrets.spectate.is_none());
}

#[test]
fn menu_session_gets_no_secrets() {
    let mut e = PresenceEngine::new();
    connect(&mut e);
    e.write_snapshot(
        GameStateStruct {
            state: GameState::InMenu,
            map: String::new(),
            playlist: String::new(),
            players: 0,
            max_players: 0,
        },
        UIPresenceStruct {
            menu_screen: "Main Menu".to_string(),
            party_visible: false,
        },
    );
    let payload = e.tick(1, false).expect("a changed record must be pushed");
    assert_eq!(payload.secrets.match_secret, "");
    assert!(payload.secrets.join.is_none());
}

#[test]
fn reentering_a_session_rotates_its_secrets() {
    let mut e = PresenceEngine::new();
    connect(&mut e);
    let (g, u) = match_snapshot();
    e.write_snapshot(g, u);
    let first = e.tick(1, false).expect("the session-starting tick must push");
    e.write_snapshot(
        GameStateStruct {
            state: GameState::InMenu,
            map: String::new(),
            playlist: String::new(),
            players: 0,
            max_players: 0,
        },
        UIPresenceStruct {
            menu_screen: "Main Menu".to_string(),
            party_visible: false,
        },
    );
    assert!(e.tick(2, false).is_some());
    let (g2, u2) = match_snapshot();
    e.write_snapshot(g2, u2);
    let second = e.tick(3, false).expect("the new session must push");
    assert_eq!(second.secrets.match_secret.len(), 36);
    assert_ne!(second.secrets.match_secret, first.secrets.match_secret);
    assert_ne!(second.secrets.join, first.secrets.join);
}

#[test]
fn menu_snapshot_is_reduced_and_pushed() {
    let mut e = PresenceEngine::new();
    connect(&mut e);
    e.write_snapshot(
        GameStateStruct {
            state: GameState::InMenu,
            map: String::new(),
            playlist: String::new(),
            players: 0,
            max_players: 0,
        },
        UIPresenceStruct {
            menu_screen: "Main Menu".to_string(),
            party_visible: false,
        },
    );
    let push = e.tick(50, false);
    let payload = push.expect("a changed record must be pushed");
    assert_eq!(payload.state, "In Menu");
    assert_eq!(payload.party, None);
}

#[test]
fn match_snapshot_sets_start_at_first_observation() {
    let mut e = PresenceEngine::new();
    connect(&mut e);
    let (g, u) = match_snapshot();
    e.write_snapshot(g, u);
    let first = e.tick(1234, false).expect("first tick must push");
    assert!(first.details.contains("tdm"));
    assert!(first.state.contains("mp_glitch"));
    assert_eq!(first.party, Some((4, 8)));
    assert_eq!(first.start, Some(1234));

    let (g2, u2) = match_snapshot();
    e.write_snapshot(g2, u2);
    let later = e.tick(9999, true);
    let kept = later.expect("a forced keep-alive pushes the current record");
    assert_eq!(kept.start, Some(1234));
}

#[test]
fn unchanged_snapshot_is_not_pushed_twice() {
    let mut e = PresenceEngine::new();
    connect(&mut e);
    let (g, u) = match_snapshot();
    e.write_snapshot(g, u);
    assert!(e.tick(1, false).is_some());
    assert!(e.tick(2, false).is_none());
    assert!(e.tick(3, false).is_none());
}

#[test]
fn transport_error_recovers_without_losing_presence() {
    let mut e = PresenceEngine::new();
    connect(&mut e);
    let (g, u) = match_snapshot();
    e.write_snapshot(g, u);
    assert!(e.tick(1, false).is_some());

    e.on_session_event(SessionEvent::TransportError);
    assert!(e.tick(2, false).is_none());

    e.on_session_event(SessionEvent::ConnectStarted);
    assert!(e.tick(3, false).is_none());
    e.on_session_event(SessionEvent::HandshakeOk);
    let resumed = e.tick(4, false).expect("reconnect must push the current record");
    assert!(resumed.state.contains("mp_glitch"));
}

#[test]
fn reload_while_disconnected_rotates_and_pushes_on_resume() {
    let mut e = PresenceEngine::new();
    connect(&mut e);
    let (g, u) = match_snapshot();
    e.write_snapshot(g, u);
    assert!(e.tick(1, false).is_some());
    e.on_session_event(SessionEvent::TransportError);

    let before = e.fetch_presence().secrets;
    e.reload_secrets();
    let after = e.fetch_presence().secrets;
    assert_eq!(after.match_secret, before.match_secret);
    assert!(after.join.is_some());
    assert_ne!(after.join, before.join);

    e.on_session_event(SessionEvent::ConnectStarted);
    e.on_session_event(SessionEvent::HandshakeOk);
    let pushed = e.tick(2, false).expect("rotation must reach the wire on resume");
    assert_eq!(pushed.secrets.join, after.join);
    assert_eq!(pushed.secrets.match_secret, before.match_secret);
}

#[test]
fn fetch_presence_is_a_faithful_copy() {
    let mut e = PresenceEngine::new();
    let (g, u) = match_snapshot();
    e.write_snapshot(g, u);
    e.tick(10, false);
    let a = e.fetch_presence();
    let b = e.fetch_presence();
    assert_eq!(a.state, b.state);
    assert_eq!(a.details, b.details);
    assert_eq!(a.party, b.party);
    assert_eq!(a.start, b.start);
    assert_eq!(a.secrets.match_secret, b.secrets.match_secret);
}
