use hyper_reflector::runtime::ProxyRuntime;
use hyper_reflector::session::{Action, AlertKind, CloseReason, EmulatorPhase, HANDSHAKE_ATTEMPTS};
use hyper_reflector::types::{OpponentEnvelope, PeerEndpoint, PunchMessage, StartArgs};

fn args() -> StartArgs {
    StartArgs {
        my_uid: "alice".to_string(),
        peer_uid: "bob".to_string(),
        server_host: "203.0.113.5".to_string(),
        server_port: 33334,
        match_id: Some("m-42".to_string()),
        emulator_path: "/opt/emu/fbneo".to_string(),
        player: 2,
        delay: 1,
        user_name: "alice".to_string(),
        game_name: None,
        emulator_game_port: None,
        emulator_listen_port: None,
        emulator_args: Vec::new(),
    }
}

fn peer() -> PeerEndpoint {
    PeerEndpoint { address: "127.0.0.1".to_string(), port: 9000 }
}

fn envelope(p: PeerEndpoint) -> Option<OpponentEnvelope> {
    Some(OpponentEnvelope { match_id: None, peer: p })
}

fn envelope_bytes() -> Vec<u8> {
    br#"{"peer":{"address":"127.0.0.1","port":9000}}"#.to_vec()
}

fn closed(reason: CloseReason) -> Action {
    Action::MatchClosed { reason, match_id: Some("m-42".to_string()) }
}

fn count<F: Fn(&Action) -> bool>(actions: &[Action], f: F) -> usize {
    actions.iter().filter(|a| f(a)).count()
}

fn is_closed(a: &Action) -> bool {
    matches!(a, Action::MatchClosed { .. })
}

fn is_launch(a: &Action) -> bool {
    matches!(a, Action::LaunchEmulator { .. })
}

fn default_command() -> Vec<String> {
    [
        "--local-port", "7000", "--remote-ip", "127.0.0.1", "--remote-port", "7001", "--player",
        "2", "--delay", "1", "--name", "alice",
    ]
    .iter()
    .map(|s| s.to_string())
    .collect()
}

/// A session whose peer is known and whose emulator runs.
fn running_session() -> ProxyRuntime {
    let mut rt = ProxyRuntime::new(args(), 7001);
    rt.on_local_datagram(envelope_bytes(), envelope(peer()));
    rt.on_emulator_datagram(vec![1, 2, 3]);
    rt.on_launch_succeeded();
    assert_eq!(rt.emulator_phase(), EmulatorPhase::Running);
    rt
}

#[test]
fn start_registers_with_server() {
    let rt = ProxyRuntime::new(args(), 7001);
    let acts = rt.start();
    assert_eq!(
        acts,
        vec![Action::Register {
            message: PunchMessage {
                uid: "alice".to_string(),
                peer_uid: "bob".to_string(),
                kill: false
            }
        }]
    );
}

#[test]
fn envelope_pings_peer_and_starts_keepalive() {
    let mut rt = ProxyRuntime::new(args(), 7001);
    let acts = rt.on_local_datagram(envelope_bytes(), envelope(peer()));
    assert_eq!(
        acts,
        vec![
            Action::SendToPeer { peer: peer(), payload: b"ping".to_vec() },
            Action::StartKeepalive
        ]
    );
    assert!(rt.keepalive_running());
    assert_eq!(rt.peer(), Some(&peer()));
    assert!(!rt.handshake_pending());
}

#[test]
fn handshake_times_out_once() {
    let mut rt = ProxyRuntime::new(args(), 7001);
    for _ in 0..HANDSHAKE_ATTEMPTS {
        assert!(rt.on_handshake_tick().is_empty());
        assert!(rt.handshake_pending());
    }
    let acts = rt.on_handshake_tick();
    assert_eq!(
        acts,
        vec![
            Action::Alert {
                kind: AlertKind::Error,
                title: "Matchmaking timeout".to_string(),
                description: "No response from the hole punching server. Please try again."
                    .to_string()
            },
            Action::Register {
                message: PunchMessage {
                    uid: "alice".to_string(),
                    peer_uid: "bob".to_string(),
                    kill: true
                }
            },
            Action::CancelRelay,
            closed(CloseReason::HandshakeTimeout),
        ]
    );
    assert!(rt.is_stopped());
    assert!(!rt.handshake_pending());
    assert!(rt.on_handshake_tick().is_empty());
    assert!(rt.stop().is_empty());
}

#[test]
fn emulator_payload_launches_once_then_relays() {
    let mut rt = ProxyRuntime::new(args(), 7001);
    rt.on_local_datagram(envelope_bytes(), envelope(peer()));
    let payload: Vec<u8> = (0u8..10).collect();
    let acts = rt.on_emulator_datagram(payload.clone());
    assert_eq!(
        acts,
        vec![Action::LaunchEmulator {
            program: "/opt/emu/fbneo".to_string(),
            args: default_command()
        }]
    );
    let acts = rt.on_launch_succeeded();
    assert_eq!(
        acts,
        vec![
            Action::WatchEmulator,
            Action::Alert {
                kind: AlertKind::Info,
                title: "Emulator launching".to_string(),
                description: "Starting /opt/emu/fbneo".to_string()
            },
            Action::SendToPeer { peer: peer(), payload: payload.clone() },
        ]
    );
    let acts = rt.on_emulator_datagram(payload.clone());
    assert_eq!(acts, vec![Action::SendToPeer { peer: peer(), payload }]);
    let acts = rt.on_keepalive_tick();
    assert_eq!(acts, vec![Action::SendToPeer { peer: peer(), payload: b"ping".to_vec() }]);
}

#[test]
fn emulator_exit_closes_once_and_aborts_keepalive() {
    let mut rt = running_session();
    let acts = rt.on_emulator_exited(None);
    assert_eq!(
        acts,
        vec![Action::CancelRelay, Action::AbortKeepalive, closed(CloseReason::EmulatorExited)]
    );
    assert!(!rt.keepalive_running());
    assert!(rt.on_keepalive_tick().is_empty());
    assert!(rt.on_emulator_exited(None).is_empty());
    assert!(rt.stop().is_empty());
    assert!(rt.on_emulator_datagram(vec![9]).is_empty());
}

#[test]
fn emulator_status_error_is_logged_and_closes() {
    let mut rt = running_session();
    let acts = rt.on_emulator_exited(Some("denied".to_string()));
    assert_eq!(acts[0], Action::Log { text: "Emulator error: denied".to_string() });
    assert_eq!(count(&acts, is_closed), 1);
    assert!(rt.is_stopped());
}

#[test]
fn closed_notification_once_under_many_triggers() {
    let mut rt = running_session();
    let mut all = Vec::new();
    all.extend(rt.stop());
    all.extend(rt.stop());
    all.extend(rt.on_emulator_exited(None));
    all.extend(rt.kill_emulator_process());
    for _ in 0..20 {
        all.extend(rt.on_handshake_tick());
    }
    all.extend(rt.on_launch_failed("late".to_string()));
    assert_eq!(count(&all, is_closed), 1);
    assert_eq!(&all[..4], &[
        Action::CancelRelay,
        Action::AbortKeepalive,
        Action::KillEmulator,
        closed(CloseReason::ProxyStop),
    ][..]);
    assert!(rt.match_closed());
}

#[test]
fn stop_without_emulator_still_closes() {
    let mut rt = ProxyRuntime::new(args(), 7001);
    let acts = rt.stop();
    assert_eq!(acts, vec![Action::CancelRelay, closed(CloseReason::ProxyStop)]);
    assert!(rt.stop().is_empty());
}

#[test]
fn no_launch_before_peer() {
    let mut rt = ProxyRuntime::new(args(), 7001);
    let mut all = Vec::new();
    all.extend(rt.on_local_datagram(b"ping".to_vec(), None));
    for _ in 0..5 {
        all.extend(rt.on_keepalive_tick());
        all.extend(rt.on_emulator_datagram(vec![1, 2]));
    }
    assert_eq!(all, vec![Action::StartKeepalive]);
    assert_eq!(rt.emulator_phase(), EmulatorPhase::NotLaunched);
}

#[test]
fn single_launch_and_single_keepalive() {
    let mut rt = ProxyRuntime::new(args(), 7001);
    let mut all = Vec::new();
    all.extend(rt.on_local_datagram(b"ping".to_vec(), None));
    all.extend(rt.on_local_datagram(envelope_bytes(), envelope(peer())));
    all.extend(rt.on_local_datagram(b"ping".to_vec(), None));
    all.extend(rt.on_emulator_datagram(vec![1]));
    all.extend(rt.on_emulator_datagram(vec![2]));
    all.extend(rt.on_keepalive_tick());
    all.extend(rt.on_launch_succeeded());
    all.extend(rt.on_emulator_datagram(vec![3]));
    all.extend(rt.kill_emulator_process());
    all.extend(rt.on_emulator_datagram(vec![4]));
    assert_eq!(count(&all, is_launch), 1);
    assert_eq!(count(&all, |a| matches!(a, Action::StartKeepalive)), 1);
    assert_eq!(all.last(), Some(&Action::SendToPeer { peer: peer(), payload: vec![4] }));
}

#[test]
fn first_envelope_wins() {
    let mut rt = ProxyRuntime::new(args(), 7001);
    rt.on_local_datagram(envelope_bytes(), envelope(peer()));
    let other = PeerEndpoint { address: "198.51.100.7".to_string(), port: 4000 };
    let acts = rt.on_local_datagram(envelope_bytes(), envelope(other));
    assert!(acts.is_empty());
    assert_eq!(rt.peer(), Some(&peer()));
}

#[test]
fn early_emulator_payload_is_dropped() {
    let mut rt = ProxyRuntime::new(args(), 7001);
    assert!(rt.on_emulator_datagram(vec![7; 10]).is_empty());
    rt.on_local_datagram(envelope_bytes(), envelope(peer()));
    let acts = rt.on_emulator_datagram(vec![8]);
    assert!(matches!(acts[0], Action::LaunchEmulator { .. }));
    let acts = rt.on_launch_succeeded();
    assert_eq!(acts[2], Action::SendToPeer { peer: peer(), payload: vec![8] });
    assert_eq!(count(&acts, |a| matches!(a, Action::SendToPeer { .. })), 1);
}

#[test]
fn local_datagrams_are_classified() {
    let mut rt = ProxyRuntime::new(args(), 7001);
    let acts = rt.on_local_datagram(br#"{"port":1}"#.to_vec(), None);
    assert_eq!(acts, vec![Action::StartKeepalive]);
    let acts = rt.on_local_datagram(b"pong".to_vec(), None);
    assert_eq!(acts, vec![Action::ForwardToEmulator { port: 7000, payload: b"pong".to_vec() }]);
    let mut bad = vec![0xffu8];
    bad.extend_from_slice(br#""port""#);
    let acts = rt.on_local_datagram(bad.clone(), None);
    assert_eq!(acts, vec![Action::ForwardToEmulator { port: 7000, payload: bad }]);
}

#[test]
fn forward_uses_configured_game_port() {
    let mut a = args();
    a.emulator_game_port = Some(7100);
    let mut rt = ProxyRuntime::new(a, 7001);
    let acts = rt.on_local_datagram(vec![1, 2, 3], None);
    assert_eq!(acts, vec![Action::ForwardToEmulator { port: 7100, payload: vec![1, 2, 3] }]);
}

#[test]
fn launch_failure_tears_down() {
    let mut rt = ProxyRuntime::new(args(), 7001);
    rt.on_local_datagram(envelope_bytes(), envelope(peer()));
    rt.on_emulator_datagram(vec![1]);
    let acts = rt.on_launch_failed("not found".to_string());
    assert_eq!(
        acts,
        vec![
            Action::Alert {
                kind: AlertKind::Error,
                title: "Emulator failed to open".to_string(),
                description: "not found".to_string()
            },
            Action::Register {
                message: PunchMessage {
                    uid: "alice".to_string(),
                    peer_uid: "bob".to_string(),
                    kill: true
                }
            },
            Action::CancelRelay,
            Action::AbortKeepalive,
            closed(CloseReason::ProxyStop),
        ]
    );
    assert_eq!(rt.emulator_phase(), EmulatorPhase::Gone);
    assert!(rt.on_emulator_datagram(vec![2]).is_empty());
}

#[test]
fn kill_emulator_only_keeps_relay() {
    let mut rt = running_session();
    let acts = rt.kill_emulator_process();
    assert_eq!(acts, vec![Action::KillEmulator, closed(CloseReason::ManualForce)]);
    assert!(!rt.is_stopped());
    assert!(rt.keepalive_running());
    assert_eq!(
        rt.on_keepalive_tick(),
        vec![Action::SendToPeer { peer: peer(), payload: b"ping".to_vec() }]
    );
    assert_eq!(rt.stop(), vec![Action::CancelRelay, Action::AbortKeepalive]);
}

#[test]
fn late_launch_after_stop_is_killed() {
    let mut rt = ProxyRuntime::new(args(), 7001);
    rt.on_local_datagram(envelope_bytes(), envelope(peer()));
    rt.on_emulator_datagram(vec![1]);
    rt.stop();
    assert_eq!(rt.on_launch_succeeded(), vec![Action::KillEmulator]);
}

#[test]
fn close_reason_and_alert_names() {
    assert_eq!(CloseReason::EmulatorExited.as_str(), "emulator-exited");
    assert_eq!(CloseReason::ProxyStop.as_str(), "proxy-stop");
    assert_eq!(CloseReason::ManualForce.as_str(), "manual-force");
    assert_eq!(CloseReason::HandshakeTimeout.as_str(), "handshake-timeout");
    assert_eq!(AlertKind::Info.as_str(), "info");
    assert_eq!(AlertKind::Error.as_str(), "error");
}
