//! One relay session as a state machine.
//!
//! [`step`] says, for a session state and an input (a datagram, a timer
//! tick, a process event, a request), what the next state is and which
//! actions the driver performs. Each input has an executable method on
//! [`ProxyRuntime`] whose result is exactly what [`step`] gives.
use vstd::prelude::*;
use crate::types::{
    PeerEndpoint, PeerView, PunchMessage, PunchView, OpponentEnvelope, StartArgs, opt_view,
    game_port_of,
};
use crate::text::{command_line, is_liveness, ping_bytes};

verus! {

/// Handshake checks after the first one before the session gives up on
/// learning its peer; one check per second.
pub const HANDSHAKE_ATTEMPTS: u64 = 15;

/// Period of the handshake check, in milliseconds.
pub const HANDSHAKE_POLL_MS: u64 = 1000;

/// Period of the keepalive ping, in milliseconds.
pub const KEEPALIVE_PERIOD_MS: u64 = 1000;

/// Period of the emulator exit check, in milliseconds.
pub const EMULATOR_POLL_MS: u64 = 750;

/// Where the session stands with its emulator child process.
#[derive(Debug, Clone, Copy, PartialEq, Eq, Structural)]
pub enum EmulatorPhase {
    /// Nothing launched yet.
    NotLaunched,
    /// A launch was requested and its outcome is awaited.
    Launching,
    /// The process runs and is watched.
    Running,
    /// The process exited, was killed, or failed to launch; it is never
    /// launched again.
    Gone,
}

/// Why a session reports that its match has closed.
#[derive(Debug, Clone, Copy, PartialEq, Eq, Structural)]
pub enum CloseReason {
    EmulatorExited,
    ProxyStop,
    ManualForce,
    HandshakeTimeout,
}

/// Severity of a user-facing alert.
#[derive(Debug, Clone, Copy, PartialEq, Eq, Structural)]
pub enum AlertKind {
    Info,
    Error,
}

/// The wire name of a close reason.
pub open spec fn reason_text(r: CloseReason) -> Seq<char> {
    match r {
        CloseReason::EmulatorExited => "emulator-exited"@,
        CloseReason::ProxyStop => "proxy-stop"@,
        CloseReason::ManualForce => "manual-force"@,
        CloseReason::HandshakeTimeout => "handshake-timeout"@,
    }
}

/// The wire name of an alert kind.
pub open spec fn alert_kind_text(k: AlertKind) -> Seq<char> {
    match k {
        AlertKind::Info => "info"@,
        AlertKind::Error => "error"@,
    }
}

impl CloseReason {
    /// The reason as it is reported to the user interface.
    pub fn as_str(&self) -> (r: &'static str)
        ensures
            r@ == reason_text(*self),
    {
        match self {
            CloseReason::EmulatorExited => "emulator-exited",
            CloseReason::ProxyStop => "proxy-stop",
            CloseReason::ManualForce => "manual-force",
            CloseReason::HandshakeTimeout => "handshake-timeout",
        }
    }
}

impl AlertKind {
    /// The kind as it is reported to the user interface.
    pub fn as_str(&self) -> (r: &'static str)
        ensures
            r@ == alert_kind_text(*self),
    {
        match self {
            AlertKind::Info => "info",
            AlertKind::Error => "error",
        }
    }
}

/// Something the driver of a session is to do.
#[derive(Debug, PartialEq, Eq)]
pub enum Action {
    /// Send this registration to the rendezvous server.
    Register { message: PunchMessage },
    /// Send these bytes to the peer from the session's outbound socket.
    SendToPeer { peer: PeerEndpoint, payload: Vec<u8> },
    /// Send these bytes to the emulator, on loopback at `port`.
    ForwardToEmulator { port: u16, payload: Vec<u8> },
    /// Start the periodic keepalive task.
    StartKeepalive,
    /// Abort the keepalive task.
    AbortKeepalive,
    /// Spawn the emulator and report the outcome to the session.
    LaunchEmulator { program: String, args: Vec<String> },
    /// Start polling the emulator for its exit.
    WatchEmulator,
    /// Kill the emulator process and wait for it.
    KillEmulator,
    /// Stop both forwarding loops.
    CancelRelay,
    /// Show an alert to the user.
    Alert { kind: AlertKind, title: String, description: String },
    /// Diagnostic text.
    Log { text: String },
    /// Report that the match has closed.
    MatchClosed { reason: CloseReason, match_id: Option<String> },
}

/// Mathematical model of an [`Action`].
pub ghost enum ActionView {
    Register { message: PunchView },
    SendToPeer { peer: PeerView, payload: Seq<u8> },
    ForwardToEmulator { port: u16, payload: Seq<u8> },
    StartKeepalive,
    AbortKeepalive,
    LaunchEmulator { program: Seq<char>, args: Seq<Seq<char>> },
    WatchEmulator,
    KillEmulator,
    CancelRelay,
    Alert { kind: AlertKind, title: Seq<char>, description: Seq<char> },
    Log { text: Seq<char> },
    MatchClosed { reason: CloseReason, match_id: Option<Seq<char>> },
}

impl View for Action {
    type V = ActionView;

    open spec fn view(&self) -> ActionView {
        match self {
            Action::Register { message } => ActionView::Register { message: message@ },
            Action::SendToPeer { peer, payload } => ActionView::SendToPeer {
                peer: peer@,
                payload: payload@,
            },
            Action::ForwardToEmulator { port, payload } => ActionView::ForwardToEmulator {
                port: *port,
                payload: payload@,
            },
            Action::StartKeepalive => ActionView::StartKeepalive,
            Action::AbortKeepalive => ActionView::AbortKeepalive,
            Action::LaunchEmulator { program, args } => ActionView::LaunchEmulator {
                program: program@,
                args: crate::types::strings_view(args@),
            },
            Action::WatchEmulator => ActionView::WatchEmulator,
            Action::KillEmulator => ActionView::KillEmulator,
            Action::CancelRelay => ActionView::CancelRelay,
            Action::Alert { kind, title, description } => ActionView::Alert {
                kind: *kind,
                title: title@,
                description: description@,
            },
            Action::Log { text } => ActionView::Log { text: text@ },
            Action::MatchClosed { reason, match_id } => ActionView::MatchClosed {
                reason: *reason,
                match_id: opt_view(*match_id),
            },
        }
    }
}

/// The models of a list of actions.
pub open spec fn actions_view(v: Seq<Action>) -> Seq<ActionView> {
    v.map_values(|a: Action| a@)
}

/// What a session is configured with, as its transitions read it.
pub ghost struct SessionConfig {
    pub my_uid: Seq<char>,
    pub peer_uid: Seq<char>,
    pub match_id: Option<Seq<char>>,
    pub program: Seq<char>,
    pub command: Seq<Seq<char>>,
    pub game_port: u16,
}

/// The configuration of a session started with `args` whose
/// emulator-facing socket is bound to `listen_port`.
pub open spec fn config_of(args: StartArgs, listen_port: u16) -> SessionConfig {
    SessionConfig {
        my_uid: args.my_uid@,
        peer_uid: args.peer_uid@,
        match_id: opt_view(args.match_id),
        program: args.emulator_path@,
        command: command_line(args, listen_port),
        game_port: game_port_of(args),
    }
}

/// Mathematical model of a session.
pub ghost struct SessionState {
    pub config: SessionConfig,
    /// The peer, once learned; it never changes after that.
    pub peer: Option<PeerView>,
    /// Whether the keepalive task runs.
    pub keepalive: bool,
    pub emulator: EmulatorPhase,
    /// The datagram held back while the emulator launches.
    pub pending: Seq<u8>,
    /// Whether the session has been torn down.
    pub stopped: bool,
    /// Whether the match-closed notification has been sent.
    pub notified: bool,
    /// Handshake checks made so far without a peer.
    pub waited: nat,
}

impl SessionState {
    /// The states a session can reach.
    pub open spec fn wf(self) -> bool {
        &&& self.waited <= HANDSHAKE_ATTEMPTS
        &&& self.emulator != EmulatorPhase::NotLaunched ==> self.peer is Some
        &&& self.emulator != EmulatorPhase::Launching ==> self.pending.len() == 0
        &&& self.stopped ==> {
            &&& self.notified
            &&& !self.keepalive
            &&& self.emulator != EmulatorPhase::Launching
            &&& self.emulator != EmulatorPhase::Running
        }
    }
}

/// A freshly created session.
pub open spec fn initial(config: SessionConfig) -> SessionState {
    SessionState {
        config,
        peer: None,
        keepalive: false,
        emulator: EmulatorPhase::NotLaunched,
        pending: Seq::empty(),
        stopped: false,
        notified: false,
        waited: 0,
    }
}

/// What can happen to a session.
pub ghost enum Input {
    /// The session starts.
    Start,
    /// A datagram on the outbound socket; `envelope` is the peer it names
    /// when it is a control envelope with a usable address.
    LocalDatagram { payload: Seq<u8>, envelope: Option<PeerView> },
    /// A datagram from the emulator.
    EmulatorDatagram { payload: Seq<u8> },
    /// The keepalive period elapsed.
    KeepaliveTick,
    /// The handshake check is due.
    HandshakeTick,
    /// The requested emulator launch succeeded.
    LaunchSucceeded,
    /// The requested emulator launch failed.
    LaunchFailed { error: Seq<char> },
    /// The emulator process is found to have exited, or its status could not
    /// be read.
    EmulatorExited { error: Option<Seq<char>> },
    /// The session is to stop.
    Stop,
    /// Only the emulator process is to be killed.
    KillEmulator,
}

/// The registration the session sends to the rendezvous server.
pub open spec fn registration(s: SessionState, kill: bool) -> ActionView {
    ActionView::Register {
        message: PunchView { uid: s.config.my_uid, peer_uid: s.config.peer_uid, kill },
    }
}

/// The match-closed notification, unless it was already sent.
pub open spec fn close_once(s: SessionState, reason: CloseReason) -> (SessionState, Seq<ActionView>) {
    if s.notified {
        (s, seq![])
    } else {
        (
            SessionState { notified: true, ..s },
            seq![ActionView::MatchClosed { reason, match_id: s.config.match_id }],
        )
    }
}

/// Full teardown: stop the relay, abort the keepalive, kill a running
/// emulator, and report the match closed once. A second teardown does nothing.
pub open spec fn teardown(s: SessionState, reason: CloseReason) -> (SessionState, Seq<ActionView>) {
    if s.stopped {
        (s, seq![])
    } else {
        let abort = if s.keepalive {
            seq![ActionView::AbortKeepalive]
        } else {
            seq![]
        };
        let kill = if s.emulator == EmulatorPhase::Running {
            seq![ActionView::KillEmulator]
        } else {
            seq![]
        };
        let closed = close_once(s, reason).1;
        (
            SessionState {
                stopped: true,
                notified: true,
                keepalive: false,
                emulator: if s.emulator == EmulatorPhase::NotLaunched {
                    EmulatorPhase::NotLaunched
                } else {
                    EmulatorPhase::Gone
                },
                pending: Seq::empty(),
                ..s
            },
            seq![ActionView::CancelRelay] + abort + kill + closed,
        )
    }
}

/// Starts the keepalive task unless it runs.
pub open spec fn ensure_keepalive(s: SessionState) -> (SessionState, Seq<ActionView>) {
    if s.keepalive {
        (s, seq![])
    } else {
        (SessionState { keepalive: true, ..s }, seq![ActionView::StartKeepalive])
    }
}

/// Sending towards the peer: dropped while the peer is unknown; the first
/// time, held back while the emulator is launched; else sent.
pub open spec fn send_to_peer(s: SessionState, payload: Seq<u8>) -> (SessionState, Seq<ActionView>) {
    match s.peer {
        None => (s, seq![]),
        Some(p) => if s.emulator == EmulatorPhase::NotLaunched {
            (
                SessionState { emulator: EmulatorPhase::Launching, pending: payload, ..s },
                seq![ActionView::LaunchEmulator { program: s.config.program, args: s.config.command }],
            )
        } else {
            (s, seq![ActionView::SendToPeer { peer: p, payload }])
        },
    }
}

/// A datagram on the outbound socket: a control envelope records the peer
/// (first one wins) and pings it; an envelope or a liveness signal starts
/// the keepalive; anything else goes to the emulator.
pub open spec fn on_local_datagram(s: SessionState, payload: Seq<u8>, envelope: Option<PeerView>) -> (SessionState, Seq<ActionView>) {
    match envelope {
        Some(p) => {
            let learned = if s.peer is None {
                (
                    SessionState { peer: Some(p), ..s },
                    seq![ActionView::SendToPeer { peer: p, payload: ping_bytes() }],
                )
            } else {
                (s, seq![])
            };
            let started = ensure_keepalive(learned.0);
            (started.0, learned.1 + started.1)
        },
        None => if is_liveness(payload) {
            ensure_keepalive(s)
        } else {
            (s, seq![ActionView::ForwardToEmulator { port: s.config.game_port, payload }])
        },
    }
}

/// Title of the alert shown when no peer was learned in time.
pub open spec fn timeout_title() -> Seq<char> {
    "Matchmaking timeout"@
}

/// Text of the alert shown when no peer was learned in time.
pub open spec fn timeout_description() -> Seq<char> {
    "No response from the hole punching server. Please try again."@
}

/// What a handshake timeout tells the user and the rendezvous server.
pub open spec fn timeout_notice(s: SessionState) -> Seq<ActionView> {
    seq![
        ActionView::Alert {
            kind: AlertKind::Error,
            title: timeout_title(),
            description: timeout_description(),
        },
        registration(s, true),
    ]
}

/// What a successful launch does: watch the process, tell the user, and
/// send the datagram that was held back.
pub open spec fn launched_notice(s: SessionState) -> Seq<ActionView> {
    seq![
        ActionView::WatchEmulator,
        ActionView::Alert {
            kind: AlertKind::Info,
            title: "Emulator launching"@,
            description: "Starting "@ + s.config.program,
        },
        ActionView::SendToPeer { peer: s.peer.unwrap(), payload: s.pending },
    ]
}

/// What a failed launch tells the user and the rendezvous server.
pub open spec fn launch_failed_notice(s: SessionState, error: Seq<char>) -> Seq<ActionView> {
    seq![
        ActionView::Alert { kind: AlertKind::Error, title: "Emulator failed to open"@, description: error },
        registration(s, true),
    ]
}

/// The handshake check: nothing once the peer is known; after the last
/// attempt an alert, a deregistration and a teardown; else one more attempt.
pub open spec fn on_handshake_tick(s: SessionState) -> (SessionState, Seq<ActionView>) {
    if s.peer is Some {
        (s, seq![])
    } else if s.waited >= HANDSHAKE_ATTEMPTS {
        let down = teardown(s, CloseReason::HandshakeTimeout);
        (down.0, timeout_notice(s) + down.1)
    } else {
        (SessionState { waited: s.waited + 1, ..s }, seq![])
    }
}

/// The emulator launched: watch it, tell the user, and send what was held
/// back. A process launched for a session that no longer wants it is killed.
pub open spec fn on_launch_succeeded(s: SessionState) -> (SessionState, Seq<ActionView>) {
    if s.emulator == EmulatorPhase::Launching {
        (
            SessionState { emulator: EmulatorPhase::Running, pending: Seq::empty(), ..s },
            launched_notice(s),
        )
    } else if s.emulator == EmulatorPhase::Gone {
        (s, seq![ActionView::KillEmulator])
    } else {
        (s, seq![])
    }
}

/// The emulator failed to launch: alert, deregister, and tear down.
pub open spec fn on_launch_failed(s: SessionState, error: Seq<char>) -> (SessionState, Seq<ActionView>) {
    if s.emulator == EmulatorPhase::Launching {
        let failed = SessionState { emulator: EmulatorPhase::Gone, pending: Seq::empty(), ..s };
        let down = teardown(failed, CloseReason::ProxyStop);
        (down.0, launch_failed_notice(s, error) + down.1)
    } else {
        (s, seq![])
    }
}

/// The running emulator exited: tear the session down.
pub open spec fn on_emulator_exited(s: SessionState, error: Option<Seq<char>>) -> (SessionState, Seq<ActionView>) {
    if s.emulator == EmulatorPhase::Running {
        let exited = SessionState { emulator: EmulatorPhase::Gone, ..s };
        let down = teardown(exited, CloseReason::EmulatorExited);
        let log = match error {
            Some(e) => seq![ActionView::Log { text: "Emulator error: "@ + e }],
            None => seq![],
        };
        (down.0, log + down.1)
    } else {
        (s, seq![])
    }
}

/// Kills only the emulator, leaving the relay up, and reports the match
/// closed once.
pub open spec fn on_kill_emulator(s: SessionState) -> (SessionState, Seq<ActionView>) {
    if s.emulator == EmulatorPhase::Running {
        let closed = close_once(SessionState { emulator: EmulatorPhase::Gone, ..s }, CloseReason::ManualForce);
        (closed.0, seq![ActionView::KillEmulator] + closed.1)
    } else if s.emulator == EmulatorPhase::Launching {
        close_once(
            SessionState { emulator: EmulatorPhase::Gone, pending: Seq::empty(), ..s },
            CloseReason::ManualForce,
        )
    } else {
        (s, seq![])
    }
}

/// The transition of a session: the next state, and the actions to perform
/// in order. A torn-down session ignores traffic and timers.
pub open spec fn step(s: SessionState, input: Input) -> (SessionState, Seq<ActionView>) {
    match input {
        Input::Start => if s.stopped {
            (s, seq![])
        } else {
            (s, seq![registration(s, false)])
        },
        Input::LocalDatagram { payload, envelope } => if s.stopped {
            (s, seq![])
        } else {
            on_local_datagram(s, payload, envelope)
        },
        Input::EmulatorDatagram { payload } => if s.stopped {
            (s, seq![])
        } else {
            send_to_peer(s, payload)
        },
        Input::KeepaliveTick => if s.stopped || !s.keepalive {
            (s, seq![])
        } else {
            send_to_peer(s, ping_bytes())
        },
        Input::HandshakeTick => if s.stopped {
            (s, seq![])
        } else {
            on_handshake_tick(s)
        },
        Input::LaunchSucceeded => on_launch_succeeded(s),
        Input::LaunchFailed { error } => on_launch_failed(s, error),
        Input::EmulatorExited { error } => on_emulator_exited(s, error),
        Input::Stop => teardown(s, CloseReason::ProxyStop),
        Input::KillEmulator => on_kill_emulator(s),
    }
}

/// The peer named by a decoded control envelope.
pub open spec fn envelope_peer(envelope: Option<OpponentEnvelope>) -> Option<PeerView> {
    match envelope {
        Some(e) => Some(e.peer@),
        None => None,
    }
}

/// Every transition keeps a session among the reachable states.
pub proof fn lemma_step_wf(s: SessionState, input: Input)
    requires
        s.wf(),
    ensures
        step(s, input).0.wf(),
{
}

} // verus!
