use relay_dialer::identity::load_or_create;
use relay_dialer::session::{identity_report, NodeEvent, Phase, Session};

fn s(t: &str) -> String {
    t.to_string()
}

#[test]
fn ping_line() {
    let mut session = Session::new();
    let line = session.handle(&NodeEvent::Ping { peer: s("peerA") });
    assert_eq!(line, "Ping with peerA");
}

#[test]
fn listen_line() {
    let mut session = Session::new();
    let line = session.handle(&NodeEvent::NewListenAddr { address: s("/ip4/0.0.0.0/tcp/9000") });
    assert_eq!(line, "Listening on /ip4/0.0.0.0/tcp/9000");
}

#[test]
fn closed_with_error_line() {
    let mut session = Session::new();
    let line = session.handle(&NodeEvent::ConnectionClosed { peer: s("peerB"), cause: Some(s("IO(timeout)")) });
    assert_eq!(line, "Connection with peerB closed due to error: IO(timeout)");
}

#[test]
fn closed_gracefully_line() {
    let mut session = Session::new();
    let line = session.handle(&NodeEvent::ConnectionClosed { peer: s("peerB"), cause: None });
    assert_eq!(line, "Connection with peerB closed gracefully");
}

#[test]
fn other_event_line() {
    let mut session = Session::new();
    let line = session.handle(&NodeEvent::Other { description: s("Dialing { .. }") });
    assert_eq!(line, "Unhandled swarm event: Dialing { .. }");
    assert_eq!(session.current_phase(), Phase::Idle);
}

#[test]
fn identity_line() {
    assert_eq!(identity_report(&s("12D3KooWabc")), "Node 1 - Peer ID: 12D3KooWabc");
}

#[test]
fn startup_phases() {
    let mut session = Session::new();
    assert_eq!(session.current_phase(), Phase::Idle);
    session.listening();
    assert_eq!(session.current_phase(), Phase::Listening);
    session.dialing();
    assert_eq!(session.current_phase(), Phase::Dialing);
    session.handle(&NodeEvent::ConnectionEstablished { peer: s("p"), description: s("ConnectionEstablished") });
    assert_eq!(session.current_phase(), Phase::Connected);
    session.handle(&NodeEvent::ConnectionClosed { peer: s("p"), cause: None });
    assert_eq!(session.current_phase(), Phase::Closed);
    session.handle(&NodeEvent::ConnectionEstablished { peer: s("p"), description: s("again") });
    assert_eq!(session.current_phase(), Phase::Closed);
}

#[test]
fn events_are_handled_in_arrival_order() {
    let events = vec![
        NodeEvent::Ping { peer: s("e1") },
        NodeEvent::NewListenAddr { address: s("e2") },
        NodeEvent::ConnectionClosed { peer: s("e3"), cause: None },
    ];
    let mut session = Session::new();
    let lines = session.handle_all(&events);
    assert_eq!(
        lines,
        vec![s("Ping with e1"), s("Listening on e2"), s("Connection with e3 closed gracefully")]
    );
    let mut one_by_one = Session::new();
    let mut singles = Vec::new();
    for e in &events {
        singles.extend(one_by_one.handle_all(&vec![e.clone()]));
    }
    assert_eq!(lines, singles);
    assert_eq!(session.current_phase(), one_by_one.current_phase());
}

#[test]
fn fresh_node_startup_scenario() {
    let loaded = load_or_create(None).unwrap();
    assert!(loaded.to_persist.is_some());
    let mut session = Session::new();
    session.listening();
    let line = session.handle(&NodeEvent::NewListenAddr { address: s("/ip4/0.0.0.0/tcp/9000") });
    assert_eq!(line, "Listening on /ip4/0.0.0.0/tcp/9000");
    session.dialing();
    assert_eq!(session.current_phase(), Phase::Dialing);
    let line = session.handle(&NodeEvent::Ping { peer: s("friend") });
    assert_eq!(line, "Ping with friend");
}

#[test]
fn unreachable_relay_scenario() {
    let mut session = Session::new();
    session.listening();
    session.dialing();
    let line = session.handle(&NodeEvent::ConnectionClosed { peer: s("relay"), cause: Some(s("Transport(refused)")) });
    assert_eq!(line, "Connection with relay closed due to error: Transport(refused)");
    assert_eq!(session.current_phase(), Phase::Closed);
    let line = session.handle(&NodeEvent::Other { description: s("later") });
    assert_eq!(line, "Unhandled swarm event: later");
}

#[test]
fn empty_run_changes_nothing() {
    let mut session = Session::new();
    session.listening();
    let lines = session.handle_all(&Vec::new());
    assert!(lines.is_empty());
    assert_eq!(session.current_phase(), Phase::Listening);
}
