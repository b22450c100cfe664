//! The plain values a session is configured with and exchanges.
use vstd::prelude::*;

verus! {

/// Port the emulator listens on for its opponent's traffic, unless configured.
pub const DEFAULT_GAME_PORT: u16 = 7000;

/// Port the session listens on for the emulator's traffic, unless configured.
pub const DEFAULT_LISTEN_PORT: u16 = 7001;

/// Public socket address of the remote player, as the rendezvous server
/// reports it.
#[derive(Debug, Clone, PartialEq, Eq)]
pub struct PeerEndpoint {
    pub address: String,
    pub port: u16,
}

/// Mathematical model of a [`PeerEndpoint`].
pub ghost struct PeerView {
    pub address: Seq<char>,
    pub port: u16,
}

impl View for PeerEndpoint {
    type V = PeerView;

    open spec fn view(&self) -> PeerView {
        PeerView { address: self.address@, port: self.port }
    }
}

impl PeerEndpoint {
    /// A copy with the same address and port.
    pub fn duplicate(&self) -> (r: PeerEndpoint)
        ensures
            r@ == self@,
    {
        PeerEndpoint { address: self.address.clone(), port: self.port }
    }
}

/// Registration sent to the rendezvous server: who we are, whom we want to
/// meet, and whether the slot is to be released (`kill`).
#[derive(Debug, Clone, PartialEq, Eq)]
pub struct PunchMessage {
    pub uid: String,
    pub peer_uid: String,
    pub kill: bool,
}

/// Mathematical model of a [`PunchMessage`].
pub ghost struct PunchView {
    pub uid: Seq<char>,
    pub peer_uid: Seq<char>,
    pub kill: bool,
}

impl View for PunchMessage {
    type V = PunchView;

    open spec fn view(&self) -> PunchView {
        PunchView { uid: self.uid@, peer_uid: self.peer_uid@, kill: self.kill }
    }
}

/// Control message from the rendezvous server that reveals the peer.
#[derive(Debug, Clone, PartialEq, Eq)]
pub struct OpponentEnvelope {
    pub match_id: Option<String>,
    pub peer: PeerEndpoint,
}

/// Parameters of one session, fixed for its lifetime.
#[derive(Debug, Clone, PartialEq, Eq)]
pub struct StartArgs {
    pub my_uid: String,
    pub peer_uid: String,
    pub server_host: String,
    pub server_port: u16,
    pub match_id: Option<String>,
    /// Path of the emulator binary.
    pub emulator_path: String,
    pub player: u8,
    pub delay: u16,
    pub user_name: String,
    pub game_name: Option<String>,
    /// Port the emulator expects its opponent on (default 7000).
    pub emulator_game_port: Option<u16>,
    /// Port the session listens on for the emulator (default 7001).
    pub emulator_listen_port: Option<u16>,
    /// Exact command-line arguments for the emulator; empty for the default
    /// template.
    pub emulator_args: Vec<String>,
}

/// The view of an optional string.
pub open spec fn opt_view(o: Option<String>) -> Option<Seq<char>> {
    match o {
        Some(s) => Some(s@),
        None => None,
    }
}

/// The views of a sequence of strings.
pub open spec fn strings_view(v: Seq<String>) -> Seq<Seq<char>> {
    v.map_values(|s: String| s@)
}

/// The port the emulator expects its opponent's traffic on.
pub open spec fn game_port_of(args: StartArgs) -> u16 {
    match args.emulator_game_port {
        Some(p) => p,
        None => DEFAULT_GAME_PORT,
    }
}

/// The port the session first tries to listen on for the emulator.
pub open spec fn listen_port_of(args: StartArgs) -> u16 {
    match args.emulator_listen_port {
        Some(p) => p,
        None => DEFAULT_LISTEN_PORT,
    }
}

impl StartArgs {
    /// The port the emulator expects its opponent's traffic on.
    pub fn game_port(&self) -> (r: u16)
        ensures
            r == game_port_of(*self),
    {
        match self.emulator_game_port {
            Some(p) => p,
            None => DEFAULT_GAME_PORT,
        }
    }

    /// The port to try first for the emulator-facing socket; the caller
    /// falls back to an ephemeral port when it is taken.
    pub fn requested_listen_port(&self) -> (r: u16)
        ensures
            r == listen_port_of(*self),
    {
        match self.emulator_listen_port {
            Some(p) => p,
            None => DEFAULT_LISTEN_PORT,
        }
    }
}

/// A copy of an optional string.
pub fn copy_opt_string(o: &Option<String>) -> (r: Option<String>)
    ensures
        opt_view(r) == opt_view(*o),
{
    match o {
        Some(s) => Some(s.clone()),
        None => None,
    }
}

/// A copy of a list of strings.
pub fn copy_strings(v: &Vec<String>) -> (r: Vec<String>)
    ensures
        strings_view(r@) == strings_view(v@),
{
    let mut r: Vec<String> = Vec::new();
    let mut i: usize = 0;
    while i < v.len()
        invariant
            i <= v@.len(),
            r@.len() == i,
            forall|j: int| 0 <= j < i ==> #[trigger] r@[j]@ == v@[j]@,
        decreases v@.len() - i,
    {
        r.push(v[i].clone());
        i = i + 1;
    }
    assert(strings_view(r@) =~= strings_view(v@));
    r
}

} // verus!
