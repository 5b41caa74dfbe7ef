//! Events accepted by the controller actor.

use vstd::prelude::*;

use super::FirmwareError;

verus! {

/// Physical inputs and actor acknowledgements delivered in order.
#[derive(Clone, Copy, Debug, PartialEq, Eq, Structural)]
pub enum ControllerEvent {
    LeftPressed,
    LeftReleased,
    RightPressed,
    RightReleased,
    NextProfile,
    BootloaderRequested,
    FatalError(FirmwareError),
    DisplayPresented { request_id: u32 },
    HidReleasedForBootloader { request_id: u32 },
    TransitionElapsed { generation: u32 },
}

} // verus!
