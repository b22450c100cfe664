//! Text and byte rules: how ports are written on a command line, which
//! datagrams are liveness signals, and how the emulator's command line is
//! built.
use vstd::prelude::*;
use vstd::string::*;
use vstd::utf8::valid_utf8;
use crate::types::{StartArgs, game_port_of, strings_view, copy_strings};

verus! {

/// The character of a decimal digit.
pub open spec fn digit_char(d: nat) -> char {
    if d == 0 {
        '0'
    } else if d == 1 {
        '1'
    } else if d == 2 {
        '2'
    } else if d == 3 {
        '3'
    } else if d == 4 {
        '4'
    } else if d == 5 {
        '5'
    } else if d == 6 {
        '6'
    } else if d == 7 {
        '7'
    } else if d == 8 {
        '8'
    } else {
        '9'
    }
}

/// The decimal numeral of `n`, without sign or leading zeros.
pub open spec fn decimal(n: nat) -> Seq<char>
    decreases n,
{
    if n < 10 {
        seq![digit_char(n)]
    } else {
        decimal(n / 10).push(digit_char(n % 10))
    }
}

fn digit_str(d: u64) -> (r: &'static str)
    requires
        d < 10,
    ensures
        r@ == seq![digit_char(d as nat)],
{
    let r = if d == 0 {
        "0"
    } else if d == 1 {
        "1"
    } else if d == 2 {
        "2"
    } else if d == 3 {
        "3"
    } else if d == 4 {
        "4"
    } else if d == 5 {
        "5"
    } else if d == 6 {
        "6"
    } else if d == 7 {
        "7"
    } else if d == 8 {
        "8"
    } else {
        "9"
    };
    proof {
        reveal_strlit("0");
        reveal_strlit("1");
        reveal_strlit("2");
        reveal_strlit("3");
        reveal_strlit("4");
        reveal_strlit("5");
        reveal_strlit("6");
        reveal_strlit("7");
        reveal_strlit("8");
        reveal_strlit("9");
    }
    assert(r@ =~= seq![digit_char(d as nat)]);
    r
}

/// Writes `n` in decimal.
pub fn decimal_string(n: u64) -> (r: String)
    ensures
        r@ == decimal(n as nat),
    decreases n,
{
    if n < 10 {
        String::from_str(digit_str(n))
    } else {
        let mut s = decimal_string(n / 10);
        s.append(digit_str(n % 10));
        assert(s@ =~= decimal(n as nat));
        s
    }
}

/// `needle` occurs in `hay` starting at index `i`.
pub open spec fn occurs_at(hay: Seq<u8>, needle: Seq<u8>, i: int) -> bool {
    0 <= i && i + needle.len() <= hay.len() && hay.subrange(i, i + needle.len()) == needle
}

/// `needle` occurs somewhere in `hay`.
pub open spec fn contains_bytes(hay: Seq<u8>, needle: Seq<u8>) -> bool {
    exists|i: int| occurs_at(hay, needle, i)
}

/// Whether `needle` occurs in `hay` at index `i`.
fn matches_at(hay: &Vec<u8>, needle: &Vec<u8>, i: usize) -> (r: bool)
    requires
        i + needle@.len() <= hay@.len(),
    ensures
        r == occurs_at(hay@, needle@, i as int),
{
    let n: usize = hay.len();
    let mut j: usize = 0;
    while j < needle.len()
        invariant
            n == hay@.len(),
            i + needle@.len() <= hay@.len(),
            j <= needle@.len(),
            forall|k: int| 0 <= k < j ==> hay@[i + k] == needle@[k],
        decreases needle@.len() - j,
    {
        if hay[i + j] != needle[j] {
            assert(hay@.subrange(i as int, i + needle@.len())[j as int] != needle@[j as int]);
            return false;
        }
        j = j + 1;
    }
    assert(hay@.subrange(i as int, i + needle@.len()) =~= needle@);
    true
}

/// Whether `needle` occurs anywhere in `hay`.
pub fn find_bytes(hay: &Vec<u8>, needle: &Vec<u8>) -> (r: bool)
    ensures
        r == contains_bytes(hay@, needle@),
{
    if needle.len() > hay.len() {
        return false;
    }
    if needle.len() == 0 {
        assert(hay@.subrange(0, 0) =~= needle@);
        assert(occurs_at(hay@, needle@, 0));
        return true;
    }
    let last: usize = hay.len() - needle.len();
    let mut i: usize = 0;
    while i <= last
        invariant
            last + needle@.len() == hay@.len(),
            needle@.len() >= 1,
            hay@.len() <= usize::MAX,
            i <= last + 1,
            forall|k: int| 0 <= k < i ==> !occurs_at(hay@, needle@, k),
        decreases last + 1 - i,
    {
        if matches_at(hay, needle, i) {
            return true;
        }
        i = i + 1;
    }
    assert forall|k: int| !occurs_at(hay@, needle@, k) by {
        if 0 <= k < i {
        }
    }
    false
}

/// The bytes of the liveness datagram `ping`.
pub open spec fn ping_bytes() -> Seq<u8> {
    seq![112u8, 105u8, 110u8, 103u8]
}

/// The bytes of the token `"port"`, quotes included.
pub open spec fn port_token() -> Seq<u8> {
    seq![34u8, 112u8, 111u8, 114u8, 116u8, 34u8]
}

/// A datagram is a liveness signal when it is exactly `ping`, or when it is
/// text that holds the token `"port"`.
pub open spec fn is_liveness(payload: Seq<u8>) -> bool {
    payload == ping_bytes() || (valid_utf8(payload) && contains_bytes(payload, port_token()))
}

/// The liveness datagram `ping`.
pub fn ping() -> (r: Vec<u8>)
    ensures
        r@ == ping_bytes(),
{
    let r: Vec<u8> = vec![112u8, 105u8, 110u8, 103u8];
    assert(r@ =~= ping_bytes());
    r
}

/// Relies on std::str::from_utf8: it succeeds exactly on well-formed UTF-8.
#[verifier::external_body]
fn is_utf8(bytes: &[u8]) -> (r: bool)
    ensures
        r == valid_utf8(bytes@),
{
    std::str::from_utf8(bytes).is_ok()
}

/// Whether a datagram from the rendezvous side is a liveness signal rather
/// than emulator traffic.
pub fn is_liveness_signal(payload: &Vec<u8>) -> (r: bool)
    ensures
        r == is_liveness(payload@),
{
    let p = ping();
    if payload.len() == 4 && payload[0] == p[0] && payload[1] == p[1] && payload[2] == p[2]
        && payload[3] == p[3] {
        assert(payload@ =~= ping_bytes());
        return true;
    }
    assert(payload@ != ping_bytes()) by {
        if payload@ == ping_bytes() {
            assert(payload@[0] == p@[0]);
        }
    }
    if !is_utf8(payload.as_slice()) {
        return false;
    }
    let token: Vec<u8> = vec![34u8, 112u8, 111u8, 114u8, 116u8, 34u8];
    assert(token@ =~= port_token());
    find_bytes(payload, &token)
}

/// The emulator's arguments when none are configured: its own port, the
/// loopback address and port it reaches the session on, then the player
/// index, input delay and display name.
pub open spec fn default_command(args: StartArgs, listen_port: u16) -> Seq<Seq<char>> {
    seq![
        "--local-port"@,
        decimal(game_port_of(args) as nat),
        "--remote-ip"@,
        "127.0.0.1"@,
        "--remote-port"@,
        decimal(listen_port as nat),
        "--player"@,
        decimal(args.player as nat),
        "--delay"@,
        decimal(args.delay as nat),
        "--name"@,
        args.user_name@,
    ]
}

/// The emulator's arguments: the configured list when there is one, else the
/// default template for the port the session actually listens on.
pub open spec fn command_line(args: StartArgs, listen_port: u16) -> Seq<Seq<char>> {
    if args.emulator_args@.len() == 0 {
        default_command(args, listen_port)
    } else {
        strings_view(args.emulator_args@)
    }
}

/// Builds the emulator's arguments; `listen_port` is the port the
/// emulator-facing socket is bound to.
pub fn emulator_command_line(args: &StartArgs, listen_port: u16) -> (r: Vec<String>)
    ensures
        strings_view(r@) == command_line(*args, listen_port),
{
    if args.emulator_args.len() > 0 {
        return copy_strings(&args.emulator_args);
    }
    let mut r: Vec<String> = Vec::new();
    r.push(String::from_str("--local-port"));
    r.push(decimal_string(args.game_port() as u64));
    r.push(String::from_str("--remote-ip"));
    r.push(String::from_str("127.0.0.1"));
    r.push(String::from_str("--remote-port"));
    r.push(decimal_string(listen_port as u64));
    r.push(String::from_str("--player"));
    r.push(decimal_string(args.player as u64));
    r.push(String::from_str("--delay"));
    r.push(decimal_string(args.delay as u64));
    r.push(String::from_str("--name"));
    r.push(args.user_name.clone());
    assert(strings_view(r@) =~= default_command(*args, listen_port));
    r
}

} // verus!
