use vstd::prelude::*;

verus! {

/// Whether the immersive runtime came up. Written once when the plugin is
/// built; every per-frame system is scheduled only under `Enabled`.
#[derive(Clone, Copy, Debug, PartialEq, Eq, Structural)]
pub enum EnableStatus {
    Waiting,
    Disabled,
    Enabled,
}

impl EnableStatus {
    /// The status that initialisation leaves behind: `Enabled` when the
    /// runtime and its graphics device came up, `Disabled` otherwise.
    pub fn from_init(initialized: bool) -> (r: EnableStatus)
        ensures
            initialized ==> r == EnableStatus::Enabled,
            !initialized ==> r == EnableStatus::Disabled,
    {
        if initialized {
            EnableStatus::Enabled
        } else {
            EnableStatus::Disabled
        }
    }

    /// The plugin graph is stable once initialisation has decided.
    pub fn is_ready(&self) -> (r: bool)
        ensures
            r == (*self != EnableStatus::Waiting),
    {
        match self {
            EnableStatus::Waiting => false,
            _ => true,
        }
    }

    /// Whether the frame-loop systems are scheduled at all.
    pub fn frame_systems_scheduled(&self) -> (r: bool)
        ensures
            r == (*self == EnableStatus::Enabled),
    {
        match self {
            EnableStatus::Enabled => true,
            _ => false,
        }
    }
}

/// Readiness of the plugin as the host asks for it: with no status recorded
/// the plugin does not hold the host back.
pub fn plugin_ready(status: Option<EnableStatus>) -> (r: bool)
    ensures
        r == match status {
            Some(s) => s != EnableStatus::Waiting,
            None => true,
        },
{
    match status {
        Some(s) => s.is_ready(),
        None => true,
    }
}

} // verus!
