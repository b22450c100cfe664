//! The executable session: one method per input, each doing exactly what
//! [`step`] says.
use vstd::prelude::*;
use vstd::string::*;
use crate::types::{PeerEndpoint, PunchMessage, OpponentEnvelope, StartArgs, copy_opt_string};
use crate::text::{emulator_command_line, is_liveness_signal, ping};
use crate::session::{
    Action, AlertKind, CloseReason, EmulatorPhase, Input, SessionState, HANDSHAKE_ATTEMPTS,
    actions_view, config_of, initial, step, envelope_peer, registration, close_once, teardown,
    ensure_keepalive, send_to_peer, lemma_step_wf,
};

verus! {

/// The state of one relay session.
pub struct ProxyRuntime {
    args: StartArgs,
    listen_port: u16,
    peer: Option<PeerEndpoint>,
    keepalive: bool,
    emulator: EmulatorPhase,
    pending: Vec<u8>,
    stopped: bool,
    notified: bool,
    waited: u64,
}

impl View for ProxyRuntime {
    type V = SessionState;

    closed spec fn view(&self) -> SessionState {
        SessionState {
            config: config_of(self.args, self.listen_port),
            peer: match self.peer {
                Some(p) => Some(p@),
                None => None,
            },
            keepalive: self.keepalive,
            emulator: self.emulator,
            pending: self.pending@,
            stopped: self.stopped,
            notified: self.notified,
            waited: self.waited as nat,
        }
    }
}

/// Appends one action.
fn emit(out: &mut Vec<Action>, a: Action)
    ensures
        actions_view(final(out)@) == actions_view(old(out)@).push(a@),
{
    out.push(a);
    assert(actions_view(out@) =~= actions_view(old(out)@).push(a@));
}

impl ProxyRuntime {
    /// The parameters the session was started with.
    pub closed spec fn start_args(&self) -> StartArgs {
        self.args
    }

    /// The port the emulator-facing socket is bound to.
    pub closed spec fn bound_port(&self) -> u16 {
        self.listen_port
    }

    /// The states a session can reach; its configuration is the one it was
    /// created with.
    pub open spec fn wf(&self) -> bool {
        &&& self@.wf()
        &&& self@.config == config_of(self.start_args(), self.bound_port())
    }

    /// A new session for `args`, whose emulator-facing socket is bound to
    /// `listen_port`.
    pub fn new(args: StartArgs, listen_port: u16) -> (r: ProxyRuntime)
        ensures
            r.wf(),
            r.start_args() == args,
            r.bound_port() == listen_port,
            r@ == initial(config_of(args, listen_port)),
    {
        let r = ProxyRuntime {
            args,
            listen_port,
            peer: None,
            keepalive: false,
            emulator: EmulatorPhase::NotLaunched,
            pending: Vec::new(),
            stopped: false,
            notified: false,
            waited: 0,
        };
        assert(r@.pending =~= Seq::<u8>::empty());
        r
    }

    /// The parameters the session was started with.
    pub fn args(&self) -> (r: &StartArgs)
        ensures
            *r == self.start_args(),
    {
        &self.args
    }

    /// The port the emulator-facing socket is bound to.
    pub fn listen_port(&self) -> (r: u16)
        ensures
            r == self.bound_port(),
    {
        self.listen_port
    }

    /// The peer, once learned.
    pub fn peer(&self) -> (r: Option<&PeerEndpoint>)
        ensures
            self@.peer == match r {
                Some(p) => Some(p@),
                None => None::<crate::types::PeerView>,
            },
    {
        match &self.peer {
            Some(p) => Some(p),
            None => None,
        }
    }

    /// Whether the keepalive task runs.
    pub fn keepalive_running(&self) -> (r: bool)
        ensures
            r == self@.keepalive,
    {
        self.keepalive
    }

    /// Where the session stands with its emulator.
    pub fn emulator_phase(&self) -> (r: EmulatorPhase)
        ensures
            r == self@.emulator,
    {
        self.emulator
    }

    /// Whether the session has been torn down.
    pub fn is_stopped(&self) -> (r: bool)
        ensures
            r == self@.stopped,
    {
        self.stopped
    }

    /// Whether the match-closed notification has been sent.
    pub fn match_closed(&self) -> (r: bool)
        ensures
            r == self@.notified,
    {
        self.notified
    }

    /// Whether the handshake check is still to run: the session is up and
    /// has no peer yet.
    pub fn handshake_pending(&self) -> (r: bool)
        ensures
            r == (!self@.stopped && self@.peer is None),
    {
        !self.stopped && self.peer.is_none()
    }

    fn registration(&self, kill: bool) -> (r: Action)
        ensures
            r@ == registration(self@, kill),
    {
        Action::Register {
            message: PunchMessage {
                uid: self.args.my_uid.clone(),
                peer_uid: self.args.peer_uid.clone(),
                kill,
            },
        }
    }

    fn close_once(&mut self, reason: CloseReason, out: &mut Vec<Action>)
        ensures
            final(self).args == old(self).args,
            final(self).listen_port == old(self).listen_port,
            final(self)@ == close_once(old(self)@, reason).0,
            actions_view(final(out)@) == actions_view(old(out)@) + close_once(old(self)@, reason).1,
    {
        if self.notified {
            assert(actions_view(out@) + seq![] =~= actions_view(out@));
            return;
        }
        emit(out, Action::MatchClosed { reason, match_id: copy_opt_string(&self.args.match_id) });
        self.notified = true;
        assert(actions_view(out@) =~= actions_view(old(out)@) + close_once(old(self)@, reason).1);
    }

    fn teardown(&mut self, reason: CloseReason, out: &mut Vec<Action>)
        ensures
            final(self).args == old(self).args,
            final(self).listen_port == old(self).listen_port,
            final(self)@ == teardown(old(self)@, reason).0,
            actions_view(final(out)@) == actions_view(old(out)@) + teardown(old(self)@, reason).1,
    {
        if self.stopped {
            assert(actions_view(out@) + seq![] =~= actions_view(out@));
            return;
        }
        let ghost s = self@;
        emit(out, Action::CancelRelay);
        if self.keepalive {
            emit(out, Action::AbortKeepalive);
        }
        if self.emulator == EmulatorPhase::Running {
            emit(out, Action::KillEmulator);
        }
        self.close_once(reason, out);
        self.stopped = true;
        self.keepalive = false;
        if self.emulator != EmulatorPhase::NotLaunched {
            self.emulator = EmulatorPhase::Gone;
        }
        self.pending = Vec::new();
        assert(self@.pending =~= Seq::<u8>::empty());
        assert(self@ == teardown(s, reason).0);
        assert(actions_view(out@) =~= actions_view(old(out)@) + teardown(s, reason).1);
    }

    fn ensure_keepalive(&mut self, out: &mut Vec<Action>)
        ensures
            final(self).args == old(self).args,
            final(self).listen_port == old(self).listen_port,
            final(self)@ == ensure_keepalive(old(self)@).0,
            actions_view(final(out)@) == actions_view(old(out)@) + ensure_keepalive(old(self)@).1,
    {
        if self.keepalive {
            assert(actions_view(out@) + seq![] =~= actions_view(out@));
            return;
        }
        emit(out, Action::StartKeepalive);
        self.keepalive = true;
        assert(actions_view(out@) =~= actions_view(old(out)@) + ensure_keepalive(old(self)@).1);
    }

    fn send_to_peer(&mut self, payload: Vec<u8>, out: &mut Vec<Action>)
        ensures
            final(self).args == old(self).args,
            final(self).listen_port == old(self).listen_port,
            final(self)@ == send_to_peer(old(self)@, payload@).0,
            actions_view(final(out)@) == actions_view(old(out)@) + send_to_peer(old(self)@, payload@).1,
    {
        let ghost s = self@;
        match &self.peer {
            None => {
                assert(actions_view(out@) + seq![] =~= actions_view(out@));
            },
            Some(p) => {
                if self.emulator == EmulatorPhase::NotLaunched {
                    let program = self.args.emulator_path.clone();
                    let args = emulator_command_line(&self.args, self.listen_port);
                    emit(out, Action::LaunchEmulator { program, args });
                    self.emulator = EmulatorPhase::Launching;
                    self.pending = payload;
                } else {
                    let peer = p.duplicate();
                    emit(out, Action::SendToPeer { peer, payload });
                }
                assert(actions_view(out@) =~= actions_view(old(out)@) + send_to_peer(s, payload@).1);
            },
        }
    }

    /// Starts the session: registers with the rendezvous server.
    pub fn start(&self) -> (r: Vec<Action>)
        ensures
            step(self@, Input::Start) == (self@, actions_view(r@)),
    {
        let mut out: Vec<Action> = Vec::new();
        if !self.stopped {
            emit(&mut out, self.registration(false));
        }
        assert(actions_view(out@) =~= step(self@, Input::Start).1);
        out
    }

    /// A datagram arrived on the outbound socket. `envelope` is the control
    /// envelope it decodes to, when it is one whose peer address is usable.
    pub fn on_local_datagram(&mut self, payload: Vec<u8>, envelope: Option<OpponentEnvelope>) -> (r: Vec<Action>)
        requires
            old(self).wf(),
        ensures
            final(self).wf(),
            step(old(self)@, Input::LocalDatagram { payload: payload@, envelope: envelope_peer(envelope) })
                == (final(self)@, actions_view(r@)),
    {
        proof {
            lemma_step_wf(self@, Input::LocalDatagram { payload: payload@, envelope: envelope_peer(envelope) });
        }
        let ghost s = self@;
        let mut out: Vec<Action> = Vec::new();
        if self.stopped {
            return out;
        }
        match envelope {
            Some(env) => {
                if self.peer.is_none() {
                    let peer = env.peer;
                    emit(&mut out, Action::SendToPeer { peer: peer.duplicate(), payload: ping() });
                    self.peer = Some(peer);
                }
                self.ensure_keepalive(&mut out);
            },
            None => {
                if is_liveness_signal(&payload) {
                    self.ensure_keepalive(&mut out);
                } else {
                    let port = self.args.game_port();
                    emit(&mut out, Action::ForwardToEmulator { port, payload });
                }
            },
        }
        assert(actions_view(out@) =~= step(s, Input::LocalDatagram { payload: payload@, envelope: envelope_peer(envelope) }).1);
        out
    }

    /// A datagram arrived from the emulator: it goes to the peer.
    pub fn on_emulator_datagram(&mut self, payload: Vec<u8>) -> (r: Vec<Action>)
        requires
            old(self).wf(),
        ensures
            final(self).wf(),
            step(old(self)@, Input::EmulatorDatagram { payload: payload@ })
                == (final(self)@, actions_view(r@)),
    {
        proof {
            lemma_step_wf(self@, Input::EmulatorDatagram { payload: payload@ });
        }
        let mut out: Vec<Action> = Vec::new();
        if !self.stopped {
            self.send_to_peer(payload, &mut out);
        }
        assert(actions_view(out@) =~= step(old(self)@, Input::EmulatorDatagram { payload: payload@ }).1);
        out
    }

    /// The keepalive period elapsed: ping the peer.
    pub fn on_keepalive_tick(&mut self) -> (r: Vec<Action>)
        requires
            old(self).wf(),
        ensures
            final(self).wf(),
            step(old(self)@, Input::KeepaliveTick) == (final(self)@, actions_view(r@)),
    {
        proof {
            lemma_step_wf(self@, Input::KeepaliveTick);
        }
        let mut out: Vec<Action> = Vec::new();
        if !self.stopped && self.keepalive {
            self.send_to_peer(ping(), &mut out);
        }
        assert(actions_view(out@) =~= step(old(self)@, Input::KeepaliveTick).1);
        out
    }

    /// The handshake check is due.
    pub fn on_handshake_tick(&mut self) -> (r: Vec<Action>)
        requires
            old(self).wf(),
        ensures
            final(self).wf(),
            step(old(self)@, Input::HandshakeTick) == (final(self)@, actions_view(r@)),
    {
        proof {
            lemma_step_wf(self@, Input::HandshakeTick);
        }
        let ghost s = self@;
        let mut out: Vec<Action> = Vec::new();
        if self.stopped || self.peer.is_some() {
        } else if self.waited >= HANDSHAKE_ATTEMPTS {
            emit(&mut out, Action::Alert {
                kind: AlertKind::Error,
                title: String::from_str("Matchmaking timeout"),
                description: String::from_str(
                    "No response from the hole punching server. Please try again.",
                ),
            });
            emit(&mut out, self.registration(true));
            self.teardown(CloseReason::HandshakeTimeout, &mut out);
        } else {
            self.waited = self.waited + 1;
        }
        assert(actions_view(out@) =~= step(s, Input::HandshakeTick).1);
        out
    }

    /// The emulator launch that was asked for succeeded.
    pub fn on_launch_succeeded(&mut self) -> (r: Vec<Action>)
        requires
            old(self).wf(),
        ensures
            final(self).wf(),
            step(old(self)@, Input::LaunchSucceeded) == (final(self)@, actions_view(r@)),
    {
        proof {
            lemma_step_wf(self@, Input::LaunchSucceeded);
        }
        let ghost s = self@;
        let mut out: Vec<Action> = Vec::new();
        if self.emulator == EmulatorPhase::Launching {
            emit(&mut out, Action::WatchEmulator);
            let description = String::from_str("Starting ").concat(self.args.emulator_path.as_str());
            emit(&mut out, Action::Alert {
                kind: AlertKind::Info,
                title: String::from_str("Emulator launching"),
                description,
            });
            let payload = self.pending.clone();
            assert(payload@ =~= s.pending);
            self.pending = Vec::new();
            match &self.peer {
                Some(p) => {
                    emit(&mut out, Action::SendToPeer { peer: p.duplicate(), payload });
                },
                None => {},
            }
            self.emulator = EmulatorPhase::Running;
            assert(self@.pending =~= Seq::<u8>::empty());
        } else if self.emulator == EmulatorPhase::Gone {
            emit(&mut out, Action::KillEmulator);
        }
        assert(actions_view(out@) =~= step(s, Input::LaunchSucceeded).1);
        out
    }

    /// The emulator launch that was asked for failed with `error`.
    pub fn on_launch_failed(&mut self, error: String) -> (r: Vec<Action>)
        requires
            old(self).wf(),
        ensures
            final(self).wf(),
            step(old(self)@, Input::LaunchFailed { error: error@ }) == (final(self)@, actions_view(r@)),
    {
        proof {
            lemma_step_wf(self@, Input::LaunchFailed { error: error@ });
        }
        let ghost s = self@;
        let mut out: Vec<Action> = Vec::new();
        if self.emulator == EmulatorPhase::Launching {
            emit(&mut out, Action::Alert {
                kind: AlertKind::Error,
                title: String::from_str("Emulator failed to open"),
                description: error,
            });
            emit(&mut out, self.registration(true));
            self.emulator = EmulatorPhase::Gone;
            self.pending = Vec::new();
            assert(self@.pending =~= Seq::<u8>::empty());
            self.teardown(CloseReason::ProxyStop, &mut out);
        }
        assert(actions_view(out@) =~= step(s, Input::LaunchFailed { error: error@ }).1);
        out
    }

    /// The emulator was found to have exited; `error` is set when its status
    /// could not be read, which counts as an exit.
    pub fn on_emulator_exited(&mut self, error: Option<String>) -> (r: Vec<Action>)
        requires
            old(self).wf(),
        ensures
            final(self).wf(),
            step(old(self)@, Input::EmulatorExited { error: crate::types::opt_view(error) })
                == (final(self)@, actions_view(r@)),
    {
        proof {
            lemma_step_wf(self@, Input::EmulatorExited { error: crate::types::opt_view(error) });
        }
        let ghost s = self@;
        let mut out: Vec<Action> = Vec::new();
        if self.emulator == EmulatorPhase::Running {
            match error {
                Some(e) => {
                    emit(&mut out, Action::Log {
                        text: String::from_str("Emulator error: ").concat(e.as_str()),
                    });
                },
                None => {},
            }
            self.emulator = EmulatorPhase::Gone;
            self.teardown(CloseReason::EmulatorExited, &mut out);
        }
        assert(actions_view(out@) =~= step(s, Input::EmulatorExited { error: crate::types::opt_view(error) }).1);
        out
    }

    /// Stops the session: stops the relay, aborts the keepalive, kills the
    /// emulator and reports the match closed, each only once.
    pub fn stop(&mut self) -> (r: Vec<Action>)
        requires
            old(self).wf(),
        ensures
            final(self).wf(),
            step(old(self)@, Input::Stop) == (final(self)@, actions_view(r@)),
    {
        proof {
            lemma_step_wf(self@, Input::Stop);
        }
        let mut out: Vec<Action> = Vec::new();
        self.teardown(CloseReason::ProxyStop, &mut out);
        assert(actions_view(out@) =~= step(old(self)@, Input::Stop).1);
        out
    }

    /// Kills only the emulator; the relay stays up.
    pub fn kill_emulator_process(&mut self) -> (r: Vec<Action>)
        requires
            old(self).wf(),
        ensures
            final(self).wf(),
            step(old(self)@, Input::KillEmulator) == (final(self)@, actions_view(r@)),
    {
        proof {
            lemma_step_wf(self@, Input::KillEmulator);
        }
        let ghost s = self@;
        let mut out: Vec<Action> = Vec::new();
        if self.emulator == EmulatorPhase::Running {
            emit(&mut out, Action::KillEmulator);
            self.emulator = EmulatorPhase::Gone;
            self.close_once(CloseReason::ManualForce, &mut out);
        } else if self.emulator == EmulatorPhase::Launching {
            self.emulator = EmulatorPhase::Gone;
            self.pending = Vec::new();
            assert(self@.pending =~= Seq::<u8>::empty());
            self.close_once(CloseReason::ManualForce, &mut out);
        }
        assert(actions_view(out@) =~= step(s, Input::KillEmulator).1);
        out
    }
}

} // verus!
