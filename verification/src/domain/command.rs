//! Separate ordered command protocols for output actors.

use vstd::prelude::*;

use super::HidOutput;

verus! {

/// Commands exclusively consumed by the HID actor.
#[derive(Clone, Copy, Debug, PartialEq, Eq)]
pub enum HidCommand {
    SetOutput(HidOutput),
    ReleaseAll,
    ReleaseForBootloader { request_id: u32 },
}

/// Commands exclusively consumed by the transition timer actor.
#[derive(Clone, Copy, Debug, PartialEq, Eq, Structural)]
pub enum TimerCommand {
    /// Arm (or re-arm) the timer for `generation`, firing after `duration_ms`.
    Start { generation: u32, duration_ms: u32 },
    /// Disarm the timer if it still belongs to `generation`.
    Cancel { generation: u32 },
}

} // verus!
