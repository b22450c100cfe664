//! What holds of every run of a session, whatever inputs arrive and in
//! whatever order.
use vstd::prelude::*;
use crate::session::{
    ActionView, EmulatorPhase, Input, SessionConfig, SessionState, HANDSHAKE_ATTEMPTS,
    initial, launch_failed_notice, launched_notice, step, timeout_notice,
};

verus! {

/// The state after a sequence of inputs, and all actions emitted on the way.
pub open spec fn run(s: SessionState, inputs: Seq<Input>) -> (SessionState, Seq<ActionView>)
    decreases inputs.len(),
{
    if inputs.len() == 0 {
        (s, seq![])
    } else {
        let first = step(s, inputs[0]);
        let rest = run(first.0, inputs.drop_first());
        (rest.0, first.1 + rest.1)
    }
}

/// Kinds of action that the laws count.
pub ghost enum Counted {
    MatchClosed,
    LaunchEmulator,
    StartKeepalive,
    AbortKeepalive,
}

/// Whether an action is of the counted kind.
pub open spec fn is_kind(a: ActionView, kind: Counted) -> bool {
    match kind {
        Counted::MatchClosed => a is MatchClosed,
        Counted::LaunchEmulator => a is LaunchEmulator,
        Counted::StartKeepalive => a is StartKeepalive,
        Counted::AbortKeepalive => a is AbortKeepalive,
    }
}

/// How many actions of a kind a sequence holds.
pub open spec fn count(acts: Seq<ActionView>, kind: Counted) -> nat
    decreases acts.len(),
{
    if acts.len() == 0 {
        0
    } else {
        count(acts.drop_last(), kind) + if is_kind(acts.last(), kind) {
            1nat
        } else {
            0nat
        }
    }
}

/// 1 for true, 0 for false.
pub open spec fn one_if(b: bool) -> nat {
    if b {
        1
    } else {
        0
    }
}

/// Appending an action adds one to its kind's count.
pub broadcast proof fn lemma_count_push(acts: Seq<ActionView>, a: ActionView, kind: Counted)
    ensures
        #[trigger] count(acts.push(a), kind) == count(acts, kind) + one_if(is_kind(a, kind)),
{
    assert(acts.push(a).drop_last() =~= acts);
}

/// Counts add up over concatenation.
pub broadcast proof fn lemma_count_add(x: Seq<ActionView>, y: Seq<ActionView>, kind: Counted)
    ensures
        #[trigger] count(x + y, kind) == count(x, kind) + count(y, kind),
    decreases y.len(),
{
    if y.len() == 0 {
        assert(x + y =~= x);
    } else {
        assert((x + y).drop_last() =~= x + y.drop_last());
        lemma_count_add(x, y.drop_last(), kind);
    }
}

/// A sequence with no action of a kind counts none of it.
pub proof fn lemma_count_none(acts: Seq<ActionView>, kind: Counted)
    requires
        forall|i: int| 0 <= i < acts.len() ==> !is_kind(#[trigger] acts[i], kind),
    ensures
        count(acts, kind) == 0,
    decreases acts.len(),
{
    if acts.len() > 0 {
        lemma_count_none(acts.drop_last(), kind);
    }
}

/// The counting lemmas, for use in proofs over action sequences.
pub broadcast group group_count {
    lemma_count_push,
    lemma_count_add,
}

/// The notices that some transitions emit hold none of the counted kinds.
proof fn lemma_notices_uncounted(s: SessionState, error: Seq<char>, kind: Counted)
    ensures
        count(timeout_notice(s), kind) == 0,
        count(launched_notice(s), kind) == 0,
        count(launch_failed_notice(s, error), kind) == 0,
{
    lemma_count_none(timeout_notice(s), kind);
    lemma_count_none(launched_notice(s), kind);
    lemma_count_none(launch_failed_notice(s, error), kind);
}

/// No notice holds an action of a counted kind, whatever the error text.
proof fn lemma_any_notice_uncounted(s: SessionState, kind: Counted)
    ensures
        count(timeout_notice(s), kind) == 0,
        count(launched_notice(s), kind) == 0,
        forall|error: Seq<char>| #[trigger] count(launch_failed_notice(s, error), kind) == 0,
{
    lemma_notices_uncounted(s, Seq::empty(), kind);
    assert forall|error: Seq<char>| #[trigger] count(launch_failed_notice(s, error), kind) == 0 by {
        lemma_notices_uncounted(s, error, kind);
    }
}

/// One transition sends the match-closed notification exactly when it turns
/// the notified flag on, and never turns it off.
pub proof fn lemma_step_closes(s: SessionState, input: Input)
    requires
        s.wf(),
    ensures
        s.notified ==> step(s, input).0.notified,
        count(step(s, input).1, Counted::MatchClosed) + one_if(s.notified)
            == one_if(step(s, input).0.notified),
{
    broadcast use group_count;
    assert(count(Seq::<ActionView>::empty(), Counted::MatchClosed) == 0);
    lemma_any_notice_uncounted(s, Counted::MatchClosed);
}

/// One transition asks for a launch exactly when it leaves the not-launched
/// phase, and never returns to it.
pub proof fn lemma_step_launches(s: SessionState, input: Input)
    requires
        s.wf(),
    ensures
        s.emulator != EmulatorPhase::NotLaunched ==> step(s, input).0.emulator != EmulatorPhase::NotLaunched,
        count(step(s, input).1, Counted::LaunchEmulator) + one_if(s.emulator != EmulatorPhase::NotLaunched)
            == one_if(step(s, input).0.emulator != EmulatorPhase::NotLaunched),
{
    broadcast use group_count;
    assert(count(Seq::<ActionView>::empty(), Counted::LaunchEmulator) == 0);
    lemma_any_notice_uncounted(s, Counted::LaunchEmulator);
}

/// One transition starts a keepalive task only when none runs, and aborts
/// one only when one runs.
pub proof fn lemma_step_keepalive(s: SessionState, input: Input)
    requires
        s.wf(),
    ensures
        count(step(s, input).1, Counted::StartKeepalive) + one_if(s.keepalive)
            == count(step(s, input).1, Counted::AbortKeepalive) + one_if(step(s, input).0.keepalive),
{
    broadcast use group_count;
    assert(count(Seq::<ActionView>::empty(), Counted::StartKeepalive) == 0);
    assert(count(Seq::<ActionView>::empty(), Counted::AbortKeepalive) == 0);
    lemma_any_notice_uncounted(s, Counted::StartKeepalive);
    lemma_any_notice_uncounted(s, Counted::AbortKeepalive);
}

/// The match-closed notification is sent once at most over any run, exactly
/// when the run turns the notified flag on; a torn-down session has sent it.
pub proof fn lemma_closed_once_over_run(s: SessionState, inputs: Seq<Input>)
    requires
        s.wf(),
    ensures
        run(s, inputs).0.wf(),
        run(s, inputs).0.stopped ==> run(s, inputs).0.notified,
        count(run(s, inputs).1, Counted::MatchClosed) + one_if(s.notified)
            == one_if(run(s, inputs).0.notified),
    decreases inputs.len(),
{
    broadcast use group_count;
    if inputs.len() == 0 {
        assert(count(Seq::<ActionView>::empty(), Counted::MatchClosed) == 0);
    } else {
        crate::session::lemma_step_wf(s, inputs[0]);
        lemma_step_closes(s, inputs[0]);
        lemma_closed_once_over_run(step(s, inputs[0]).0, inputs.drop_first());
    }
}

/// From a new session, whichever inputs arrive (stop requests, handshake
/// timeout, launch failure, emulator exit, any number of each and in any
/// order), the match-closed notification is sent at most once, and exactly
/// once when the session ends up torn down.
pub proof fn lemma_closed_notification_once(config: SessionConfig, inputs: Seq<Input>)
    ensures
        count(run(initial(config), inputs).1, Counted::MatchClosed) <= 1,
        run(initial(config), inputs).0.stopped ==> count(
            run(initial(config), inputs).1,
            Counted::MatchClosed,
        ) == 1,
{
    lemma_closed_once_over_run(initial(config), inputs);
}

/// Each way a session ends tears it down: a stop request; the last
/// handshake check without a peer; a failed launch; the emulator's exit.
pub proof fn lemma_teardown_triggers(s: SessionState, error: Seq<char>, status: Option<Seq<char>>)
    requires
        s.wf(),
    ensures
        step(s, Input::Stop).0.stopped,
        !s.stopped && s.peer is None && s.waited == HANDSHAKE_ATTEMPTS ==> step(
            s,
            Input::HandshakeTick,
        ).0.stopped,
        s.emulator == EmulatorPhase::Launching ==> step(s, Input::LaunchFailed { error }).0.stopped,
        s.emulator == EmulatorPhase::Running ==> step(
            s,
            Input::EmulatorExited { error: status },
        ).0.stopped,
{
}

/// No emulator launch is asked for while the peer is unknown.
pub proof fn lemma_no_launch_before_peer(s: SessionState, input: Input)
    requires
        s.wf(),
        s.peer is None,
    ensures
        count(step(s, input).1, Counted::LaunchEmulator) == 0,
{
    broadcast use group_count;
    assert(count(Seq::<ActionView>::empty(), Counted::LaunchEmulator) == 0);
    lemma_any_notice_uncounted(s, Counted::LaunchEmulator);
}

/// Over any run, the emulator is asked to launch once at most: exactly when
/// the run leaves the not-launched phase, which it never re-enters.
pub proof fn lemma_single_launch_over_run(s: SessionState, inputs: Seq<Input>)
    requires
        s.wf(),
    ensures
        count(run(s, inputs).1, Counted::LaunchEmulator) + one_if(
            s.emulator != EmulatorPhase::NotLaunched,
        ) == one_if(run(s, inputs).0.emulator != EmulatorPhase::NotLaunched),
    decreases inputs.len(),
{
    broadcast use group_count;
    if inputs.len() == 0 {
        assert(count(Seq::<ActionView>::empty(), Counted::LaunchEmulator) == 0);
    } else {
        crate::session::lemma_step_wf(s, inputs[0]);
        lemma_step_launches(s, inputs[0]);
        lemma_single_launch_over_run(step(s, inputs[0]).0, inputs.drop_first());
    }
}

/// Over any run, keepalive tasks started and aborted balance with the
/// keepalive flag: a task is started only when none runs and aborted only
/// when one runs.
pub proof fn lemma_keepalive_balance_over_run(s: SessionState, inputs: Seq<Input>)
    requires
        s.wf(),
    ensures
        count(run(s, inputs).1, Counted::StartKeepalive) + one_if(s.keepalive) == count(
            run(s, inputs).1,
            Counted::AbortKeepalive,
        ) + one_if(run(s, inputs).0.keepalive),
    decreases inputs.len(),
{
    broadcast use group_count;
    if inputs.len() == 0 {
        assert(count(Seq::<ActionView>::empty(), Counted::StartKeepalive) == 0);
        assert(count(Seq::<ActionView>::empty(), Counted::AbortKeepalive) == 0);
    } else {
        crate::session::lemma_step_wf(s, inputs[0]);
        lemma_step_keepalive(s, inputs[0]);
        lemma_keepalive_balance_over_run(step(s, inputs[0]).0, inputs.drop_first());
    }
}

/// From a new session, after any inputs, at most one emulator launch has
/// been asked for, and the keepalive tasks still alive (started less
/// aborted) number at most one.
pub proof fn lemma_single_emulator_and_keepalive(config: SessionConfig, inputs: Seq<Input>)
    ensures
        count(run(initial(config), inputs).1, Counted::LaunchEmulator) <= 1,
        count(run(initial(config), inputs).1, Counted::AbortKeepalive) <= count(
            run(initial(config), inputs).1,
            Counted::StartKeepalive,
        ) <= count(run(initial(config), inputs).1, Counted::AbortKeepalive) + 1,
{
    lemma_single_launch_over_run(initial(config), inputs);
    lemma_keepalive_balance_over_run(initial(config), inputs);
}

/// Once the peer is known, no input changes it: the first envelope wins.
pub proof fn lemma_peer_first_writer_wins(s: SessionState, inputs: Seq<Input>)
    requires
        s.peer is Some,
    ensures
        run(s, inputs).0.peer == s.peer,
    decreases inputs.len(),
{
    if inputs.len() > 0 {
        lemma_peer_first_writer_wins(step(s, inputs[0]).0, inputs.drop_first());
    }
}

/// A datagram from the emulator while the peer is unknown is dropped: it
/// changes nothing and emits nothing, so every later run behaves as if it
/// had never arrived.
pub proof fn lemma_early_payload_dropped(s: SessionState, payload: Seq<u8>, later: Seq<Input>)
    requires
        s.peer is None,
    ensures
        step(s, Input::EmulatorDatagram { payload }) == (s, Seq::<ActionView>::empty()),
        run(s, seq![Input::EmulatorDatagram { payload }] + later) == run(s, later),
{
    let inputs = seq![Input::EmulatorDatagram { payload }] + later;
    assert(inputs.drop_first() =~= later);
    assert(Seq::<ActionView>::empty() + run(s, later).1 =~= run(s, later).1);
}

} // verus!
