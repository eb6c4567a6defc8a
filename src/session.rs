use vstd::prelude::*;

verus! {

/// Lifecycle state of the runtime session, as the runtime reports it.
/// `Running` stands for every state the runtime passes through while frames
/// are being produced (synchronised, visible, focused).
#[derive(Clone, Copy, Debug, PartialEq, Eq, Structural)]
pub enum SessionState {
    Unknown,
    Idle,
    Ready,
    Running,
    Stopping,
    LossPending,
    Exiting,
}

impl SessionState {
    /// States after which the frame loop issues nothing more on this session.
    pub open spec fn is_terminal_spec(self) -> bool {
        self == SessionState::LossPending || self == SessionState::Exiting
    }

    pub fn is_terminal(&self) -> (r: bool)
        ensures
            r == self.is_terminal_spec(),
    {
        match self {
            SessionState::LossPending | SessionState::Exiting => true,
            _ => false,
        }
    }
}

/// One event taken from the runtime's queue. Kinds this layer does not
/// handle arrive as `Other` and are ignored.
#[derive(Clone, Copy, Debug, PartialEq, Eq, Structural)]
pub enum RuntimeEvent {
    SessionStateChanged(SessionState),
    InstanceLossPending,
    EventsLost(u32),
    Other,
}

/// What a session-state change asks of the caller.
#[derive(Clone, Copy, Debug, PartialEq, Eq, Structural)]
pub enum SessionCall {
    /// Nothing beyond recording the state.
    Nothing,
    /// Call begin-session with the primary stereo view configuration.
    Begin,
    /// Call end-session.
    End,
    /// Stop: no further runtime call this tick.
    Abort,
}

/// The call that entering `state` asks for.
pub open spec fn call_for(state: SessionState) -> SessionCall {
    match state {
        SessionState::Ready => SessionCall::Begin,
        SessionState::Stopping => SessionCall::End,
        SessionState::LossPending | SessionState::Exiting => SessionCall::Abort,
        _ => SessionCall::Nothing,
    }
}

/// The running flag after `call` was made and the runtime answered `ok`:
/// a successful begin raises it, a successful end lowers it, and a failed
/// call leaves it as it was.
pub open spec fn running_after(running: bool, call: SessionCall, ok: bool) -> bool {
    if !ok {
        running
    } else {
        match call {
            SessionCall::Begin => true,
            SessionCall::End => false,
            _ => running,
        }
    }
}

/// Current session state and the process-wide flag that gates frame work.
#[derive(Clone, Copy, Debug)]
pub struct SessionMachine {
    pub state: SessionState,
    pub running: bool,
}

impl SessionMachine {
    pub fn new() -> (r: SessionMachine)
        ensures
            r.state == SessionState::Idle,
            !r.running,
    {
        SessionMachine { state: SessionState::Idle, running: false }
    }

    /// Records `new_state` and says which session call it asks for. The flag
    /// changes only once that call has answered, in `confirm`.
    pub fn transition(&mut self, new_state: SessionState) -> (r: SessionCall)
        ensures
            r == call_for(new_state),
            final(self).state == new_state,
            final(self).running == old(self).running,
    {
        self.state = new_state;
        match new_state {
            SessionState::Ready => SessionCall::Begin,
            SessionState::Stopping => SessionCall::End,
            SessionState::LossPending | SessionState::Exiting => SessionCall::Abort,
            _ => SessionCall::Nothing,
        }
    }

    /// Takes the runtime's answer to `call` into the running flag.
    pub fn confirm(&mut self, call: SessionCall, ok: bool)
        ensures
            final(self).state == old(self).state,
            final(self).running == running_after(old(self).running, call, ok),
    {
        if ok {
            match call {
                SessionCall::Begin => {
                    self.running = true;
                },
                SessionCall::End => {
                    self.running = false;
                },
                _ => {},
            }
        }
    }
}

} // verus!
