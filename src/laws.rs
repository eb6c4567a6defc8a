use vstd::prelude::*;

use crate::bracket::{
    actions, bracket_call, bracket_prefix, degraded_frame, full_frame, next, run, Action, Call, Input, LoopView, Outcome, Phase,
};
use crate::session::{RuntimeEvent, SessionState};

verus! {

proof fn lemma_prefix_push(n: nat)
    requires
        n < 6,
    ensures
        bracket_prefix(n).push(bracket_call(n as int)) == bracket_prefix(n + 1),
{
    assert(bracket_prefix(n).push(bracket_call(n as int)) =~= bracket_prefix(n + 1));
}

/// Every step keeps the loop's invariant.
pub proof fn lemma_next_wf(s: LoopView, i: Input)
    requires
        s.wf(),
    ensures
        next(s, i).0.wf(),
{
    match s.phase {
        Phase::Polling => lemma_prefix_push(0),
        Phase::WaitingFrame => lemma_prefix_push(1),
        Phase::Extracting => lemma_prefix_push(2),
        Phase::Acquiring => lemma_prefix_push(3),
        Phase::Submitting => lemma_prefix_push(4),
        Phase::Releasing => lemma_prefix_push(5),
        _ => {},
    }
}

/// Every state reached from a well-formed one is well-formed.
pub proof fn lemma_run_wf(s: LoopView, inputs: Seq<Input>)
    requires
        s.wf(),
    ensures
        run(s, inputs).wf(),
    decreases inputs.len(),
{
    if inputs.len() > 0 {
        lemma_next_wf(s, inputs[0]);
        lemma_run_wf(next(s, inputs[0]).0, inputs.drop_first());
    }
}

/// How often `a` occurs in `acts`.
pub open spec fn count(acts: Seq<Action>, a: Action) -> nat
    decreases acts.len(),
{
    if acts.len() == 0 {
        0
    } else {
        (if acts[0] == a { 1nat } else { 0nat }) + count(acts.drop_first(), a)
    }
}

/// The input that delivers a change of the session to `st`.
pub open spec fn state_event(st: SessionState) -> Input {
    Input::Answer(Outcome::Polled(Some(RuntimeEvent::SessionStateChanged(st))))
}

/// How many changes to `st` the loop observes, while polling, along `inputs`.
pub open spec fn observed(s: LoopView, inputs: Seq<Input>, st: SessionState) -> nat
    decreases inputs.len(),
{
    if inputs.len() == 0 {
        0
    } else {
        (if s.phase == Phase::Polling && inputs[0] == state_event(st) { 1nat } else { 0nat }) + observed(
            next(s, inputs[0]).0,
            inputs.drop_first(),
            st,
        )
    }
}

/// Over any sequence of inputs, begin-session is asked for exactly once per
/// `Ready` state observed, and end-session exactly once per `Stopping` state
/// observed.
pub proof fn lemma_session_calls(s: LoopView, inputs: Seq<Input>)
    ensures
        count(actions(s, inputs), Action::BeginSession) == observed(s, inputs, SessionState::Ready),
        count(actions(s, inputs), Action::EndSession) == observed(s, inputs, SessionState::Stopping),
    decreases inputs.len(),
{
    if inputs.len() > 0 {
        let t = next(s, inputs[0]);
        lemma_session_calls(t.0, inputs.drop_first());
        let acts = actions(s, inputs);
        assert(acts[0] == t.1);
        assert(acts.drop_first() =~= actions(t.0, inputs.drop_first()));
    }
}

/// A successful begin-session raises the running flag, and a successful
/// end-session lowers it.
pub proof fn lemma_session_flag(s: LoopView)
    ensures
        s.phase == Phase::BeginningSession ==> next(s, Input::Answer(Outcome::SessionCallDone(true))).0.running,
        s.phase == Phase::EndingSession ==> !next(s, Input::Answer(Outcome::SessionCallDone(true))).0.running,
        s.phase == Phase::Polling ==> next(s, state_event(SessionState::Ready)).1 == Action::BeginSession,
        s.phase == Phase::Polling ==> next(s, state_event(SessionState::Stopping)).1 == Action::EndSession,
{
}

/// Position of a call in the order a frame bracket issues them.
pub open spec fn rank(c: Call) -> int {
    match c {
        Call::WaitFrame => 0,
        Call::BeginFrame => 1,
        Call::AcquireImage => 2,
        Call::WaitImage => 3,
        Call::ReleaseImage => 4,
        Call::EndFrame => 5,
    }
}

/// The calls of a frame come in the bracket's order, each at most once; an
/// acquire comes after the begin-frame that opens the bracket, and a release
/// after the acquire.
pub open spec fn well_ordered(log: Seq<Call>) -> bool {
    &&& forall|i: int, j: int| 0 <= i < j < log.len() ==> rank(#[trigger] log[i]) < rank(#[trigger] log[j])
    &&& forall|j: int|
        0 <= j < log.len() && #[trigger] log[j] == Call::AcquireImage ==> 1 < j && log[1] == Call::BeginFrame
    &&& forall|j: int|
        0 <= j < log.len() && #[trigger] log[j] == Call::ReleaseImage ==> 2 < j && log[2] == Call::AcquireImage
}

proof fn lemma_rank_call(i: int)
    requires
        0 <= i < 6,
    ensures
        rank(bracket_call(i)) == i,
{
}

proof fn lemma_prefix_ordered(n: nat)
    requires
        n <= 6,
    ensures
        well_ordered(bracket_prefix(n)),
{
    let l = bracket_prefix(n);
    assert forall|i: int, j: int| 0 <= i < j < l.len() implies rank(#[trigger] l[i]) < rank(#[trigger] l[j]) by {
        lemma_rank_call(i);
        lemma_rank_call(j);
    }
    assert forall|j: int| 0 <= j < l.len() && #[trigger] l[j] == Call::AcquireImage implies 1 < j && l[1]
        == Call::BeginFrame by {
        lemma_rank_call(j);
    }
    assert forall|j: int| 0 <= j < l.len() && #[trigger] l[j] == Call::ReleaseImage implies 2 < j && l[2]
        == Call::AcquireImage by {
        lemma_rank_call(j);
    }
}

proof fn lemma_degraded_ordered()
    ensures
        well_ordered(degraded_frame()),
{
    let l = degraded_frame();
    assert(l[0] == Call::WaitFrame && l[1] == Call::BeginFrame && l[2] == Call::AcquireImage && l[3]
        == Call::EndFrame);
}

proof fn lemma_wf_ordered(s: LoopView)
    requires
        s.wf(),
    ensures
        well_ordered(s.log),
        s.log.len() > 0 && s.log.last() == Call::EndFrame ==> (s.log == full_frame() || s.log
            == degraded_frame()),
{
    if s.log == degraded_frame() {
        lemma_degraded_ordered();
    } else {
        let n: nat = if s.log == bracket_prefix(0) {
            0
        } else if s.log == bracket_prefix(1) {
            1
        } else if s.log == bracket_prefix(2) {
            2
        } else if s.log == bracket_prefix(3) {
            3
        } else if s.log == bracket_prefix(4) {
            4
        } else if s.log == bracket_prefix(5) {
            5
        } else {
            6
        };
        assert(s.log == bracket_prefix(n));
        lemma_prefix_ordered(n);
        if n > 0 && n < 6 {
            assert(s.log.last() == bracket_call(n - 1));
        }
    }
}

/// In every state reached from a well-formed one, the calls issued for the
/// latest frame are in the bracket's order: wait, begin-frame, acquire,
/// wait-image, release, end-frame, with no acquire before a begin-frame and
/// no release before an acquire. A frame that has ended issued exactly the
/// full bracket, or, when no image could be acquired, the bracket without
/// wait-image and release.
pub proof fn lemma_frame_order(s: LoopView, inputs: Seq<Input>)
    requires
        s.wf(),
    ensures
        well_ordered(run(s, inputs).log),
        run(s, inputs).log.len() > 0 && run(s, inputs).log.last() == Call::EndFrame ==> (run(s, inputs).log
            == full_frame() || run(s, inputs).log == degraded_frame()),
{
    lemma_run_wf(s, inputs);
    lemma_wf_ordered(run(s, inputs));
}

/// No action in `acts` asks anything of the runtime.
pub open spec fn quiet(acts: Seq<Action>) -> bool {
    forall|k: int| 0 <= k < acts.len() ==> #[trigger] acts[k] == Action::Done
}

/// Once idle, the loop stays as it is and asks for nothing until the next
/// tick starts; once stopped, it does so for good.
pub proof fn lemma_idle_quiet(s: LoopView, inputs: Seq<Input>)
    requires
        s.phase == Phase::Idle,
        s.stopped || forall|k: int| 0 <= k < inputs.len() ==> #[trigger] inputs[k] != Input::StartTick,
    ensures
        run(s, inputs) == s,
        actions(s, inputs).len() == inputs.len(),
        quiet(actions(s, inputs)),
    decreases inputs.len(),
{
    if inputs.len() > 0 {
        assert(inputs[0] != Input::StartTick || s.stopped);
        assert(next(s, inputs[0]) == (s, Action::Done));
        let rest = inputs.drop_first();
        assert forall|k: int| 0 <= k < rest.len() implies #[trigger] rest[k] != Input::StartTick || s.stopped by {
            assert(rest[k] == inputs[k + 1]);
        }
        lemma_idle_quiet(s, rest);
        let acts = actions(s, inputs);
        assert forall|k: int| 0 <= k < acts.len() implies #[trigger] acts[k] == Action::Done by {
            if k > 0 {
                assert(acts[k] == actions(s, rest)[k - 1]);
            }
        }
    }
}

/// A new tick never starts while a frame is in flight, and a frame leaves
/// flight only by being ended or by a begin-frame that failed.
pub proof fn lemma_one_frame_in_flight(s: LoopView, i: Input)
    requires
        s.wf(),
    ensures
        s.in_flight() ==> next(s, Input::StartTick) == (s, Action::Done),
        s.in_flight() && !next(s, i).0.in_flight() ==> next(s, i).0.phase == Phase::Idle && (s.phase
            == Phase::EndingFrame || s.phase == Phase::BeginningFrame),
{
}

/// When waiting for the frame fails, the tick ends there: no begin-frame,
/// acquire or view location is asked for, the frame timing keeps its prior
/// value, the loop stays quiet for the rest of the tick, and the next tick
/// starts polling afresh.
pub proof fn lemma_wait_failure(s: LoopView, rest: Seq<Input>)
    requires
        s.wf(),
        s.phase == Phase::WaitingFrame,
        forall|k: int| 0 <= k < rest.len() ==> #[trigger] rest[k] != Input::StartTick,
    ensures
        ({
            let (t, a) = next(s, Input::Answer(Outcome::FrameWaited(None)));
            &&& a == Action::Done
            &&& t.phase == Phase::Idle
            &&& t.timing == s.timing
            &&& t.log == bracket_prefix(1)
            &&& quiet(actions(t, rest))
            &&& run(t, rest) == t
            &&& next(t, Input::StartTick).1 == Action::PollEvent
            &&& next(t, Input::StartTick).0.phase == Phase::Polling
        }),
{
    let t = next(s, Input::Answer(Outcome::FrameWaited(None))).0;
    lemma_idle_quiet(t, rest);
}

/// When polling observes the session exiting or being lost, or the instance
/// about to be lost, the loop stops: it asks the runtime for nothing more, in
/// this tick or any later one.
pub proof fn lemma_terminal_event(s: LoopView, ev: RuntimeEvent, later: Seq<Input>)
    requires
        s.wf(),
        s.phase == Phase::Polling,
        ev == RuntimeEvent::SessionStateChanged(SessionState::Exiting) || ev == RuntimeEvent::SessionStateChanged(
            SessionState::LossPending,
        ) || ev == RuntimeEvent::InstanceLossPending,
    ensures
        ({
            let (t, a) = next(s, Input::Answer(Outcome::Polled(Some(ev))));
            &&& a == Action::Done
            &&& t.stopped
            &&& quiet(actions(t, later))
        }),
{
    let t = next(s, Input::Answer(Outcome::Polled(Some(ev)))).0;
    lemma_idle_quiet(t, later);
}

/// Begin-session is asked for only on entering `Ready`, and end-session
/// only on entering `Stopping`.
pub proof fn lemma_session_call_states(s: LoopView, i: Input)
    ensures
        next(s, i).1 == Action::BeginSession ==> next(s, i).0.session == SessionState::Ready,
        next(s, i).1 == Action::EndSession ==> next(s, i).0.session == SessionState::Stopping,
{
}

/// The frame timing is written by a successful wait for the frame and by
/// nothing else, and then holds what the wait returned.
pub proof fn lemma_timing_slot(s: LoopView, i: Input)
    ensures
        next(s, i).0.timing != s.timing ==> s.phase == Phase::WaitingFrame && (i matches Input::Answer(
            Outcome::FrameWaited(Some(t)),
        ) && next(s, i).0.timing == Some(t)),
{
}

} // verus!
