use vstd::prelude::*;

use crate::session::{call_for, running_after, RuntimeEvent, SessionCall, SessionMachine, SessionState};

verus! {

/// Timing the runtime hands out for the next frame, on its own monotonic
/// clock (nanoseconds).
#[derive(Clone, Copy, Debug, PartialEq, Eq, Structural)]
pub struct FrameTiming {
    pub predicted_display_time: i64,
    pub predicted_period: i64,
}

/// The runtime calls that make up one frame bracket, in the one order in
/// which they may happen.
#[derive(Clone, Copy, Debug, PartialEq, Eq, Structural)]
pub enum Call {
    WaitFrame,
    BeginFrame,
    AcquireImage,
    WaitImage,
    ReleaseImage,
    EndFrame,
}

/// Where the frame loop stands. Stage A runs `Polling` to `Extracting` on the
/// simulation schedule; stage B runs `Acquiring` to `EndingFrame` on the
/// submission schedule. Every phase but `Idle`, `Polling` and the two session
/// phases is a frame in flight.
#[derive(Clone, Copy, Debug, PartialEq, Eq, Structural)]
pub enum Phase {
    Idle,
    Polling,
    BeginningSession,
    EndingSession,
    WaitingFrame,
    BeginningFrame,
    LocatingViews,
    Extracting,
    Acquiring,
    WaitingImage,
    Publishing,
    Submitting,
    Relocating,
    Releasing,
    EndingFrame,
}

/// What the host is asked to do next. `Done` means nothing more in this
/// stage: the host returns control to its schedule.
#[derive(Clone, Copy, Debug, PartialEq, Eq, Structural)]
pub enum Action {
    Done,
    PollEvent,
    BeginSession,
    EndSession,
    WaitFrame,
    BeginFrame,
    LocateViews { display_time: i64 },
    AcquireImage,
    WaitImage,
    PublishViews { image_index: u32 },
    ReleaseImage,
    EndFrame { display_time: i64, with_views: bool },
}

/// What the runtime answered to the last action.
#[derive(Clone, Copy, Debug, PartialEq, Eq, Structural)]
pub enum Outcome {
    /// The next queued event, or `None` once the queue is empty.
    Polled(Option<RuntimeEvent>),
    PollFailed,
    SessionCallDone(bool),
    FrameWaited(Option<FrameTiming>),
    FrameBegun(bool),
    ViewsLocated(bool),
    ImageAcquired(Option<u32>),
    ImageWaited(bool),
    ViewsPublished,
    ImageReleased(bool),
    FrameEnded(bool),
}

/// What the frame loop is told: a schedule reached one of its steps, or the
/// runtime answered.
#[derive(Clone, Copy, Debug, PartialEq, Eq, Structural)]
pub enum Input {
    /// Stage A begins on the simulation schedule.
    StartTick,
    /// Stage B begins, before device submission.
    StartSubmission,
    /// A later stage asks for fresher poses for the end-of-frame call.
    Relocate,
    /// Stage B resumes, after device submission.
    FinishSubmission,
    Answer(Outcome),
}

/// The frame loop as a mathematical value. `log` holds the bracket calls
/// issued for the latest frame.
pub struct LoopView {
    pub phase: Phase,
    pub session: SessionState,
    pub running: bool,
    pub stopped: bool,
    pub timing: Option<FrameTiming>,
    pub image: Option<u32>,
    pub views_located: bool,
    pub log: Seq<Call>,
}

pub open spec fn display_time(t: Option<FrameTiming>) -> i64 {
    match t {
        Some(t) => t.predicted_display_time,
        None => 0,
    }
}

pub open spec fn image_index(i: Option<u32>) -> u32 {
    match i {
        Some(i) => i,
        None => 0,
    }
}

pub open spec fn end_action(s: LoopView) -> Action {
    Action::EndFrame { display_time: display_time(s.timing), with_views: s.views_located }
}

/// The frame loop's answer to an outcome of the runtime. An outcome that
/// does not answer the action in flight changes nothing.
pub open spec fn answer(s: LoopView, o: Outcome) -> (LoopView, Action) {
    match s.phase {
        Phase::Polling => match o {
            Outcome::Polled(None) => if s.running {
                (LoopView { phase: Phase::WaitingFrame, log: s.log.push(Call::WaitFrame), ..s }, Action::WaitFrame)
            } else {
                (LoopView { phase: Phase::Idle, ..s }, Action::Done)
            },
            Outcome::Polled(Some(RuntimeEvent::SessionStateChanged(st))) => match call_for(st) {
                SessionCall::Begin => (
                    LoopView { phase: Phase::BeginningSession, session: st, ..s },
                    Action::BeginSession,
                ),
                SessionCall::End => (
                    LoopView { phase: Phase::EndingSession, session: st, ..s },
                    Action::EndSession,
                ),
                SessionCall::Abort => (LoopView { phase: Phase::Idle, session: st, stopped: true, ..s }, Action::Done),
                SessionCall::Nothing => (LoopView { session: st, ..s }, Action::PollEvent),
            },
            Outcome::Polled(Some(RuntimeEvent::InstanceLossPending)) => (
                LoopView { phase: Phase::Idle, stopped: true, ..s },
                Action::Done,
            ),
            Outcome::Polled(Some(_)) => (s, Action::PollEvent),
            Outcome::PollFailed => (LoopView { phase: Phase::Idle, ..s }, Action::Done),
            _ => (s, Action::Done),
        },
        Phase::BeginningSession => match o {
            Outcome::SessionCallDone(ok) => (
                LoopView { phase: Phase::Polling, running: running_after(s.running, SessionCall::Begin, ok), ..s },
                Action::PollEvent,
            ),
            _ => (s, Action::Done),
        },
        Phase::EndingSession => match o {
            Outcome::SessionCallDone(ok) => (
                LoopView { phase: Phase::Polling, running: running_after(s.running, SessionCall::End, ok), ..s },
                Action::PollEvent,
            ),
            _ => (s, Action::Done),
        },
        Phase::WaitingFrame => match o {
            Outcome::FrameWaited(Some(t)) => (
                LoopView { phase: Phase::BeginningFrame, timing: Some(t), log: s.log.push(Call::BeginFrame), ..s },
                Action::BeginFrame,
            ),
            Outcome::FrameWaited(None) => (LoopView { phase: Phase::Idle, ..s }, Action::Done),
            _ => (s, Action::Done),
        },
        Phase::BeginningFrame => match o {
            Outcome::FrameBegun(true) => (
                LoopView { phase: Phase::LocatingViews, views_located: false, ..s },
                Action::LocateViews { display_time: display_time(s.timing) },
            ),
            Outcome::FrameBegun(false) => (LoopView { phase: Phase::Idle, ..s }, Action::Done),
            _ => (s, Action::Done),
        },
        Phase::LocatingViews => match o {
            Outcome::ViewsLocated(ok) => (LoopView { phase: Phase::Extracting, views_located: ok, ..s }, Action::Done),
            _ => (s, Action::Done),
        },
        Phase::Acquiring => match o {
            Outcome::ImageAcquired(Some(i)) => (
                LoopView { phase: Phase::WaitingImage, image: Some(i), log: s.log.push(Call::WaitImage), ..s },
                Action::WaitImage,
            ),
            Outcome::ImageAcquired(None) => (LoopView { phase: Phase::Submitting, ..s }, Action::Done),
            _ => (s, Action::Done),
        },
        Phase::WaitingImage => match o {
            Outcome::ImageWaited(true) => (
                LoopView { phase: Phase::Publishing, ..s },
                Action::PublishViews { image_index: image_index(s.image) },
            ),
            Outcome::ImageWaited(false) => (LoopView { phase: Phase::Submitting, ..s }, Action::Done),
            _ => (s, Action::Done),
        },
        Phase::Publishing => match o {
            Outcome::ViewsPublished => (LoopView { phase: Phase::Submitting, ..s }, Action::Done),
            _ => (s, Action::Done),
        },
        Phase::Relocating => match o {
            Outcome::ViewsLocated(ok) => (
                LoopView { phase: Phase::Submitting, views_located: s.views_located || ok, ..s },
                Action::Done,
            ),
            _ => (s, Action::Done),
        },
        Phase::Releasing => match o {
            Outcome::ImageReleased(_) => {
                let e = LoopView { phase: Phase::EndingFrame, image: None, log: s.log.push(Call::EndFrame), ..s };
                (e, end_action(s))
            },
            _ => (s, Action::Done),
        },
        Phase::EndingFrame => match o {
            Outcome::FrameEnded(_) => (LoopView { phase: Phase::Idle, ..s }, Action::Done),
            _ => (s, Action::Done),
        },
        _ => (s, Action::Done),
    }
}

/// One step of the frame loop: the state after `i` and the action asked of
/// the host.
pub open spec fn next(s: LoopView, i: Input) -> (LoopView, Action) {
    match i {
        Input::StartTick => if s.phase == Phase::Idle && !s.stopped {
            (LoopView { phase: Phase::Polling, log: bracket_prefix(0), ..s }, Action::PollEvent)
        } else {
            (s, Action::Done)
        },
        Input::StartSubmission => if s.phase == Phase::Extracting {
            (LoopView { phase: Phase::Acquiring, log: s.log.push(Call::AcquireImage), ..s }, Action::AcquireImage)
        } else {
            (s, Action::Done)
        },
        Input::Relocate => if s.phase == Phase::Submitting {
            (LoopView { phase: Phase::Relocating, ..s }, Action::LocateViews { display_time: display_time(s.timing) })
        } else {
            (s, Action::Done)
        },
        Input::FinishSubmission => if s.phase == Phase::Submitting {
            match s.image {
                Some(_) => (LoopView { phase: Phase::Releasing, log: s.log.push(Call::ReleaseImage), ..s }, Action::ReleaseImage),
                None => (LoopView { phase: Phase::EndingFrame, log: s.log.push(Call::EndFrame), ..s }, end_action(s)),
            }
        } else {
            (s, Action::Done)
        },
        Input::Answer(o) => answer(s, o),
    }
}

/// The state after feeding `inputs` one by one.
pub open spec fn run(s: LoopView, inputs: Seq<Input>) -> LoopView
    decreases inputs.len(),
{
    if inputs.len() == 0 {
        s
    } else {
        run(next(s, inputs[0]).0, inputs.drop_first())
    }
}

/// The actions asked of the host while feeding `inputs` one by one.
pub open spec fn actions(s: LoopView, inputs: Seq<Input>) -> Seq<Action>
    decreases inputs.len(),
{
    if inputs.len() == 0 {
        Seq::empty()
    } else {
        seq![next(s, inputs[0]).1] + actions(next(s, inputs[0]).0, inputs.drop_first())
    }
}

/// The `i`-th call of a frame bracket that runs to its end.
pub open spec fn bracket_call(i: int) -> Call {
    if i <= 0 {
        Call::WaitFrame
    } else if i == 1 {
        Call::BeginFrame
    } else if i == 2 {
        Call::AcquireImage
    } else if i == 3 {
        Call::WaitImage
    } else if i == 4 {
        Call::ReleaseImage
    } else {
        Call::EndFrame
    }
}

/// The first `n` calls of a frame bracket.
pub open spec fn bracket_prefix(n: nat) -> Seq<Call> {
    Seq::new(n, |i: int| bracket_call(i))
}

/// The bracket of a frame that held an image to the end.
pub open spec fn full_frame() -> Seq<Call> {
    bracket_prefix(6)
}

/// The bracket of a frame whose image could not be acquired.
pub open spec fn degraded_frame() -> Seq<Call> {
    bracket_prefix(3).push(Call::EndFrame)
}

impl LoopView {
    /// Whether a frame bracket is open: frame timing is held and the end of
    /// the frame is still owed to the runtime.
    pub open spec fn in_flight(self) -> bool {
        !(self.phase == Phase::Idle || self.phase == Phase::Polling || self.phase == Phase::BeginningSession
            || self.phase == Phase::EndingSession || self.phase == Phase::WaitingFrame)
    }

    /// The loop's invariant: the calls issued for the latest frame are the
    /// ones its phase stands for, and an image is held exactly between a
    /// successful acquire and its release.
    pub open spec fn wf(self) -> bool {
        &&& self.in_flight() ==> self.timing is Some
        &&& self.phase != Phase::Idle ==> !self.stopped
        &&& match self.phase {
            Phase::Idle => self.image is None && (self.log == bracket_prefix(0) || self.log == bracket_prefix(1)
                || self.log == bracket_prefix(2) || self.log == degraded_frame() || self.log == full_frame()),
            Phase::Polling | Phase::BeginningSession | Phase::EndingSession => self.image is None && self.log
                == bracket_prefix(0),
            Phase::WaitingFrame => self.image is None && self.log == bracket_prefix(1),
            Phase::BeginningFrame | Phase::LocatingViews | Phase::Extracting => self.image is None && self.log
                == bracket_prefix(2),
            Phase::Acquiring => self.image is None && self.log == bracket_prefix(3),
            Phase::WaitingImage | Phase::Publishing => self.image is Some && self.log == bracket_prefix(4),
            Phase::Submitting | Phase::Relocating => (self.image is None && self.log == bracket_prefix(3)) || (
            self.image is Some && self.log == bracket_prefix(4)),
            Phase::Releasing => self.image is Some && self.log == bracket_prefix(5),
            Phase::EndingFrame => self.image is None && (self.log == degraded_frame() || self.log == full_frame()),
        }
    }
}

/// The frame loop. It is driven by [`FrameLoop::step`] alone, so the order
/// of runtime calls is kept by construction rather than by convention.
pub struct FrameLoop {
    phase: Phase,
    session: SessionMachine,
    stopped: bool,
    timing: Option<FrameTiming>,
    image: Option<u32>,
    views_located: bool,
    log: Ghost<Seq<Call>>,
}

impl View for FrameLoop {
    type V = LoopView;

    closed spec fn view(&self) -> LoopView {
        LoopView {
            phase: self.phase,
            session: self.session.state,
            running: self.session.running,
            stopped: self.stopped,
            timing: self.timing,
            image: self.image,
            views_located: self.views_located,
            log: self.log@,
        }
    }
}

impl FrameLoop {
    /// A loop before the first tick: idle session, nothing in flight.
    pub fn new() -> (r: FrameLoop)
        ensures
            r@.phase == Phase::Idle,
            r@.session == SessionState::Idle,
            !r@.running,
            !r@.stopped,
            r@.timing is None,
            r@.image is None,
            !r@.views_located,
            r@.log.len() == 0,
            r@.wf(),
    {
        FrameLoop {
            phase: Phase::Idle,
            session: SessionMachine::new(),
            stopped: false,
            timing: None,
            image: None,
            views_located: false,
            log: Ghost(bracket_prefix(0)),
        }
    }

    pub fn phase(&self) -> (r: Phase)
        ensures
            r == self@.phase,
    {
        self.phase
    }

    pub fn session_state(&self) -> (r: SessionState)
        ensures
            r == self@.session,
    {
        self.session.state
    }

    /// The flag that gates frame work: raised by a successful begin-session,
    /// lowered by a successful end-session.
    pub fn session_running(&self) -> (r: bool)
        ensures
            r == self@.running,
    {
        self.session.running
    }

    /// Whether a terminal event ended the loop.
    pub fn is_stopped(&self) -> (r: bool)
        ensures
            r == self@.stopped,
    {
        self.stopped
    }

    /// The timing of the latest frame the runtime released.
    pub fn frame_timing(&self) -> (r: Option<FrameTiming>)
        ensures
            r == self@.timing,
    {
        self.timing
    }

    /// The image held for the frame in flight.
    pub fn held_image(&self) -> (r: Option<u32>)
        ensures
            r == self@.image,
    {
        self.image
    }

    fn current_display_time(&self) -> (r: i64)
        ensures
            r == display_time(self@.timing),
    {
        match self.timing {
            Some(t) => t.predicted_display_time,
            None => 0,
        }
    }

    fn end_frame_action(&self) -> (r: Action)
        ensures
            r == end_action(self@),
    {
        Action::EndFrame { display_time: self.current_display_time(), with_views: self.views_located }
    }

    fn poll_answer(&mut self, polled: Option<RuntimeEvent>) -> (r: Action)
        requires
            old(self)@.phase == Phase::Polling,
        ensures
            (final(self)@, r) == answer(old(self)@, Outcome::Polled(polled)),
    {
        match polled {
            None => if self.session.running {
                self.phase = Phase::WaitingFrame;
                self.log = Ghost(self.log@.push(Call::WaitFrame));
                Action::WaitFrame
            } else {
                self.phase = Phase::Idle;
                Action::Done
            },
            Some(RuntimeEvent::SessionStateChanged(st)) => match self.session.transition(st) {
                SessionCall::Begin => {
                    self.phase = Phase::BeginningSession;
                    Action::BeginSession
                },
                SessionCall::End => {
                    self.phase = Phase::EndingSession;
                    Action::EndSession
                },
                SessionCall::Abort => {
                    self.phase = Phase::Idle;
                    self.stopped = true;
                    Action::Done
                },
                SessionCall::Nothing => Action::PollEvent,
            },
            Some(RuntimeEvent::InstanceLossPending) => {
                self.phase = Phase::Idle;
                self.stopped = true;
                Action::Done
            },
            Some(_) => Action::PollEvent,
        }
    }

    fn answer(&mut self, o: Outcome) -> (r: Action)
        ensures
            (final(self)@, r) == answer(old(self)@, o),
    {
        match self.phase {
            Phase::Polling => match o {
                Outcome::Polled(e) => self.poll_answer(e),
                Outcome::PollFailed => {
                    self.phase = Phase::Idle;
                    Action::Done
                },
                _ => Action::Done,
            },
            Phase::BeginningSession | Phase::EndingSession => match o {
                Outcome::SessionCallDone(ok) => {
                    let call = match self.phase {
                        Phase::BeginningSession => SessionCall::Begin,
                        _ => SessionCall::End,
                    };
                    self.session.confirm(call, ok);
                    self.phase = Phase::Polling;
                    Action::PollEvent
                },
                _ => Action::Done,
            },
            Phase::WaitingFrame => match o {
                Outcome::FrameWaited(Some(t)) => {
                    self.timing = Some(t);
                    self.phase = Phase::BeginningFrame;
                    self.log = Ghost(self.log@.push(Call::BeginFrame));
                    Action::BeginFrame
                },
                Outcome::FrameWaited(None) => {
                    self.phase = Phase::Idle;
                    Action::Done
                },
                _ => Action::Done,
            },
            Phase::BeginningFrame => match o {
                Outcome::FrameBegun(true) => {
                    self.phase = Phase::LocatingViews;
                    self.views_located = false;
                    Action::LocateViews { display_time: self.current_display_time() }
                },
                Outcome::FrameBegun(false) => {
                    self.phase = Phase::Idle;
                    Action::Done
                },
                _ => Action::Done,
            },
            Phase::LocatingViews => match o {
                Outcome::ViewsLocated(ok) => {
                    self.phase = Phase::Extracting;
                    self.views_located = ok;
                    Action::Done
                },
                _ => Action::Done,
            },
            Phase::Acquiring => match o {
                Outcome::ImageAcquired(Some(i)) => {
                    self.image = Some(i);
                    self.phase = Phase::WaitingImage;
                    self.log = Ghost(self.log@.push(Call::WaitImage));
                    Action::WaitImage
                },
                Outcome::ImageAcquired(None) => {
                    self.phase = Phase::Submitting;
                    Action::Done
                },
                _ => Action::Done,
            },
            Phase::WaitingImage => match o {
                Outcome::ImageWaited(true) => {
                    self.phase = Phase::Publishing;
                    let index = match self.image {
                        Some(i) => i,
                        None => 0,
                    };
                    Action::PublishViews { image_index: index }
                },
                Outcome::ImageWaited(false) => {
                    self.phase = Phase::Submitting;
                    Action::Done
                },
                _ => Action::Done,
            },
            Phase::Publishing => match o {
                Outcome::ViewsPublished => {
                    self.phase = Phase::Submitting;
                    Action::Done
                },
                _ => Action::Done,
            },
            Phase::Relocating => match o {
                Outcome::ViewsLocated(ok) => {
                    self.phase = Phase::Submitting;
                    self.views_located = self.views_located || ok;
                    Action::Done
                },
                _ => Action::Done,
            },
            Phase::Releasing => match o {
                Outcome::ImageReleased(_) => {
                    let r = self.end_frame_action();
                    self.phase = Phase::EndingFrame;
                    self.image = None;
                    self.log = Ghost(self.log@.push(Call::EndFrame));
                    r
                },
                _ => Action::Done,
            },
            Phase::EndingFrame => match o {
                Outcome::FrameEnded(_) => {
                    self.phase = Phase::Idle;
                    Action::Done
                },
                _ => Action::Done,
            },
            _ => Action::Done,
        }
    }

    /// Takes one input and says what the host is to do next. The new state
    /// and the action are exactly those of `next`, and the loop's invariant
    /// is kept.
    pub fn step(&mut self, input: Input) -> (r: Action)
        ensures
            (final(self)@, r) == next(old(self)@, input),
            old(self)@.wf() ==> final(self)@.wf(),
    {
        proof {
            if old(self)@.wf() {
                crate::laws::lemma_next_wf(old(self)@, input);
            }
        }
        match input {
            Input::StartTick => {
                if self.phase == Phase::Idle && !self.stopped {
                    self.phase = Phase::Polling;
                    self.log = Ghost(bracket_prefix(0));
                    Action::PollEvent
                } else {
                    Action::Done
                }
            },
            Input::StartSubmission => {
                if self.phase == Phase::Extracting {
                    self.phase = Phase::Acquiring;
                    self.log = Ghost(self.log@.push(Call::AcquireImage));
                    Action::AcquireImage
                } else {
                    Action::Done
                }
            },
            Input::Relocate => {
                if self.phase == Phase::Submitting {
                    self.phase = Phase::Relocating;
                    Action::LocateViews { display_time: self.current_display_time() }
                } else {
                    Action::Done
                }
            },
            Input::FinishSubmission => {
                if self.phase == Phase::Submitting {
                    match self.image {
                        Some(_) => {
                            self.phase = Phase::Releasing;
                            self.log = Ghost(self.log@.push(Call::ReleaseImage));
                            Action::ReleaseImage
                        },
                        None => {
                            let r = self.end_frame_action();
                            self.phase = Phase::EndingFrame;
                            self.log = Ghost(self.log@.push(Call::EndFrame));
                            r
                        },
                    }
                } else {
                    Action::Done
                }
            },
            Input::Answer(o) => self.answer(o),
        }
    }
}

/// Stage A of a tick on the simulation schedule: starts polling when no frame
/// is in flight and the loop has not been stopped.
pub fn xr_begin_frame(frames: &mut FrameLoop) -> (r: Action)
    ensures
        (final(frames)@, r) == next(old(frames)@, Input::StartTick),
        old(frames)@.wf() ==> final(frames)@.wf(),
{
    frames.step(Input::StartTick)
}

/// Stage B before device submission: acquires an image for the frame that
/// stage A began, if there is one.
pub fn post_frame(frames: &mut FrameLoop) -> (r: Action)
    ensures
        (final(frames)@, r) == next(old(frames)@, Input::StartSubmission),
        old(frames)@.wf() ==> final(frames)@.wf(),
{
    frames.step(Input::StartSubmission)
}

/// Stage B after device submission: releases the held image, if any, and
/// ends the frame.
pub fn end_frame(frames: &mut FrameLoop) -> (r: Action)
    ensures
        (final(frames)@, r) == next(old(frames)@, Input::FinishSubmission),
        old(frames)@.wf() ==> final(frames)@.wf(),
{
    frames.step(Input::FinishSubmission)
}

/// Locates the views again for the frame awaiting its end, so that the
/// end-of-frame call carries fresher poses.
pub fn locate_views(frames: &mut FrameLoop) -> (r: Action)
    ensures
        (final(frames)@, r) == next(old(frames)@, Input::Relocate),
        old(frames)@.wf() ==> final(frames)@.wf(),
{
    frames.step(Input::Relocate)
}

} // verus!
