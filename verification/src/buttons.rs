//! Decisions of the debounced button actors: what to wait for next, when a
//! settled level counts as a press or a release, and how a press of the
//! preset button is classified by how long it was held. Waiting for edges
//! and sleeping stay with the actors.

use vstd::prelude::*;

use crate::domain::ControllerEvent;

verus! {

/// How long a level must hold after an edge before it counts.
pub const DEBOUNCE_MS: u64 = 30;

/// How long the preset button must be held to request the USB bootloader.
pub const BOOTLOADER_HOLD_MS: u64 = 5000;

/// What a button actor waits for before reporting back.
#[derive(Clone, Copy, Debug, PartialEq, Eq, Structural)]
pub enum ButtonWait {
    /// The pin goes from high to low.
    FallingEdge,
    /// The pin is high (at once, if it already is).
    High,
    /// Sleep for `ms` milliseconds.
    Sleep { ms: u64 },
    /// The pin goes from low to high, or `ms` milliseconds pass, whichever is first.
    RiseOrTimeout { ms: u64 },
}

/// One of the two side buttons.
#[derive(Clone, Copy, Debug, PartialEq, Eq, Structural)]
pub enum Side {
    Left,
    Right,
}

/// The press event of a side button.
pub open spec fn press_event(side: Side) -> ControllerEvent {
    match side {
        Side::Left => ControllerEvent::LeftPressed,
        Side::Right => ControllerEvent::RightPressed,
    }
}

/// The release event of a side button.
pub open spec fn release_event(side: Side) -> ControllerEvent {
    match side {
        Side::Left => ControllerEvent::LeftReleased,
        Side::Right => ControllerEvent::RightReleased,
    }
}

/// Where a side button is in its press/release cycle.
#[derive(Clone, Copy, Debug, PartialEq, Eq, Structural)]
pub enum SideStage {
    /// Released; waiting for a falling edge.
    Released,
    /// A falling edge was seen; sleeping out the debounce time.
    ConfirmingPress,
    /// The press was reported; waiting for the pin to go high.
    Held,
    /// The pin went high; sleeping out the debounce time.
    ConfirmingRelease,
}

/// What a side button in `stage` waits for.
pub open spec fn side_wait(stage: SideStage) -> ButtonWait {
    match stage {
        SideStage::Released => ButtonWait::FallingEdge,
        SideStage::ConfirmingPress => ButtonWait::Sleep { ms: DEBOUNCE_MS },
        SideStage::Held => ButtonWait::High,
        SideStage::ConfirmingRelease => ButtonWait::Sleep { ms: DEBOUNCE_MS },
    }
}

/// The stage and the event reported once the wait of `stage` ends with the
/// pin `low` or high: a press is a level still low after the debounce time
/// that followed a falling edge, and a release a level still high after the
/// debounce time that followed the pin going high; a level that did not hold
/// is a bounce and goes back to waiting.
pub open spec fn side_step(stage: SideStage, side: Side, low: bool) -> (SideStage, Option<
    ControllerEvent,
>) {
    match stage {
        SideStage::Released => (SideStage::ConfirmingPress, None),
        SideStage::ConfirmingPress => if low {
            (SideStage::Held, Some(press_event(side)))
        } else {
            (SideStage::Released, None)
        },
        SideStage::Held => (SideStage::ConfirmingRelease, None),
        SideStage::ConfirmingRelease => if low {
            (SideStage::Held, None)
        } else {
            (SideStage::Released, Some(release_event(side)))
        },
    }
}

/// Whether a press has been reported and its release not yet.
pub open spec fn side_holding(stage: SideStage) -> bool {
    stage is Held || stage is ConfirmingRelease
}

/// A side button that reports each debounced press once, then exactly one
/// debounced release.
pub struct SideButton {
    side: Side,
    stage: SideStage,
}

impl SideButton {
    pub closed spec fn side(&self) -> Side {
        self.side
    }

    pub closed spec fn stage(&self) -> SideStage {
        self.stage
    }

    pub fn new(side: Side) -> (b: Self)
        ensures
            b.side() == side,
            b.stage() == SideStage::Released,
    {
        SideButton { side, stage: SideStage::Released }
    }

    /// What to wait for next.
    pub fn next_wait(&self) -> (w: ButtonWait)
        ensures
            w == side_wait(self.stage()),
    {
        match self.stage {
            SideStage::Released => ButtonWait::FallingEdge,
            SideStage::ConfirmingPress => ButtonWait::Sleep { ms: DEBOUNCE_MS },
            SideStage::Held => ButtonWait::High,
            SideStage::ConfirmingRelease => ButtonWait::Sleep { ms: DEBOUNCE_MS },
        }
    }

    /// The wait of `next_wait` ended and the pin now reads `low` (or high).
    pub fn wait_done(&mut self, low: bool) -> (ev: Option<ControllerEvent>)
        ensures
            final(self).side() == old(self).side(),
            (final(self).stage(), ev) == side_step(old(self).stage(), old(self).side(), low),
    {
        let (stage, ev) = match self.stage {
            SideStage::Released => (SideStage::ConfirmingPress, None),
            SideStage::ConfirmingPress => if low {
                (
                    SideStage::Held,
                    Some(
                        match self.side {
                            Side::Left => ControllerEvent::LeftPressed,
                            Side::Right => ControllerEvent::RightPressed,
                        },
                    ),
                )
            } else {
                (SideStage::Released, None)
            },
            SideStage::Held => (SideStage::ConfirmingRelease, None),
            SideStage::ConfirmingRelease => if low {
                (SideStage::Held, None)
            } else {
                (
                    SideStage::Released,
                    Some(
                        match self.side {
                            Side::Left => ControllerEvent::LeftReleased,
                            Side::Right => ControllerEvent::RightReleased,
                        },
                    ),
                )
            },
        };
        self.stage = stage;
        ev
    }
}

/// Side-button events alternate, starting with a press: an event is reported
/// exactly when the button crosses between released and held; a press only
/// from released, after the debounce sleep that followed a falling edge, with
/// the pin still low; a release only from held, after the debounce sleep that
/// followed the pin going high, with the pin still high.
pub proof fn lemma_side_events_alternate(stage: SideStage, side: Side, low: bool)
    ensures
        ({
            let (next, ev) = side_step(stage, side, low);
            &&& ev is Some <==> side_holding(next) != side_holding(stage)
            &&& ev == Some(press_event(side)) ==> {
                &&& !side_holding(stage)
                &&& side_wait(stage) == ButtonWait::Sleep { ms: DEBOUNCE_MS }
                &&& stage == SideStage::ConfirmingPress
                &&& low
            }
            &&& ev == Some(release_event(side)) ==> {
                &&& side_holding(stage)
                &&& side_wait(stage) == ButtonWait::Sleep { ms: DEBOUNCE_MS }
                &&& stage == SideStage::ConfirmingRelease
                &&& !low
            }
        }),
        !side_holding(SideStage::Released),
{
}

/// Classify a debounced press of the preset button by how long it was held
/// before it was released or the hold time ran out, and whether the pin is
/// still low then: held for the full bootloader hold time and still low is a
/// bootloader request, anything else a profile switch.
pub fn classify_preset_press(held_ms: u64, still_low: bool) -> (ev: ControllerEvent)
    ensures
        ev == (if held_ms >= BOOTLOADER_HOLD_MS && still_low {
            ControllerEvent::BootloaderRequested
        } else {
            ControllerEvent::NextProfile
        }),
{
    if held_ms >= BOOTLOADER_HOLD_MS && still_low {
        ControllerEvent::BootloaderRequested
    } else {
        ControllerEvent::NextProfile
    }
}

/// Where the preset button is in handling one press.
#[derive(Clone, Copy, Debug, PartialEq, Eq, Structural)]
pub enum PresetStage {
    /// Released; waiting for a falling edge.
    Released,
    /// A falling edge was seen; sleeping out the debounce time.
    ConfirmingPress,
    /// The press is debounced; waiting for the release or the hold time.
    Holding,
    /// A bootloader request was sent; its release is consumed here.
    AwaitingRelease,
    /// An event was sent; sleeping out the debounce time before listening again.
    Settling,
}

/// What the preset button in `stage` waits for.
pub open spec fn preset_wait(stage: PresetStage) -> ButtonWait {
    match stage {
        PresetStage::Released => ButtonWait::FallingEdge,
        PresetStage::ConfirmingPress => ButtonWait::Sleep { ms: DEBOUNCE_MS },
        PresetStage::Holding => ButtonWait::RiseOrTimeout { ms: BOOTLOADER_HOLD_MS },
        PresetStage::AwaitingRelease => ButtonWait::High,
        PresetStage::Settling => ButtonWait::Sleep { ms: DEBOUNCE_MS },
    }
}

/// The stage and the event reported once the wait of `stage` ends after
/// `waited_ms` milliseconds with the pin `low` or high.
pub open spec fn preset_step(stage: PresetStage, low: bool, waited_ms: u64) -> (PresetStage, Option<
    ControllerEvent,
>) {
    match stage {
        PresetStage::Released => (PresetStage::ConfirmingPress, None),
        PresetStage::ConfirmingPress => if low {
            (PresetStage::Holding, None)
        } else {
            (PresetStage::Released, None)
        },
        PresetStage::Holding => if waited_ms >= BOOTLOADER_HOLD_MS && low {
            (PresetStage::AwaitingRelease, Some(ControllerEvent::BootloaderRequested))
        } else {
            (PresetStage::Settling, Some(ControllerEvent::NextProfile))
        },
        PresetStage::AwaitingRelease => (PresetStage::Settling, None),
        PresetStage::Settling => (PresetStage::Released, None),
    }
}

/// The preset button: a short press switches profile, a press held for the
/// bootloader hold time requests the USB bootloader.
pub struct PresetButton {
    stage: PresetStage,
}

impl PresetButton {
    pub closed spec fn stage(&self) -> PresetStage {
        self.stage
    }

    pub fn new() -> (b: Self)
        ensures
            b.stage() == PresetStage::Released,
    {
        PresetButton { stage: PresetStage::Released }
    }

    /// What to wait for next.
    pub fn next_wait(&self) -> (w: ButtonWait)
        ensures
            w == preset_wait(self.stage()),
    {
        match self.stage {
            PresetStage::Released => ButtonWait::FallingEdge,
            PresetStage::ConfirmingPress => ButtonWait::Sleep { ms: DEBOUNCE_MS },
            PresetStage::Holding => ButtonWait::RiseOrTimeout { ms: BOOTLOADER_HOLD_MS },
            PresetStage::AwaitingRelease => ButtonWait::High,
            PresetStage::Settling => ButtonWait::Sleep { ms: DEBOUNCE_MS },
        }
    }

    /// The wait of `next_wait` ended after `waited_ms` milliseconds and the
    /// pin now reads `low` (or high).
    pub fn wait_done(&mut self, low: bool, waited_ms: u64) -> (ev: Option<ControllerEvent>)
        ensures
            (final(self).stage(), ev) == preset_step(old(self).stage(), low, waited_ms),
    {
        let (stage, ev) = match self.stage {
            PresetStage::Released => (PresetStage::ConfirmingPress, None),
            PresetStage::ConfirmingPress => if low {
                (PresetStage::Holding, None)
            } else {
                (PresetStage::Released, None)
            },
            PresetStage::Holding => {
                let ev = classify_preset_press(waited_ms, low);
                if ev == ControllerEvent::BootloaderRequested {
                    (PresetStage::AwaitingRelease, Some(ev))
                } else {
                    (PresetStage::Settling, Some(ev))
                }
            },
            PresetStage::AwaitingRelease => (PresetStage::Settling, None),
            PresetStage::Settling => (PresetStage::Released, None),
        };
        self.stage = stage;
        ev
    }
}

/// Each debounced press of the preset button sends exactly one event: a
/// bootloader request when it is still held at the hold time, a profile
/// switch otherwise; a press not low after the debounce sleep sends nothing,
/// and the release after a bootloader request sends nothing.
pub proof fn lemma_preset_press_sends_one_event(low: bool, waited_ms: u64, later_low: bool)
    ensures
        preset_wait(PresetStage::ConfirmingPress) == (ButtonWait::Sleep { ms: DEBOUNCE_MS }),
        preset_step(PresetStage::ConfirmingPress, false, waited_ms) == (
            PresetStage::Released,
            None::<ControllerEvent>,
        ),
        preset_wait(PresetStage::Holding) == (ButtonWait::RiseOrTimeout { ms: BOOTLOADER_HOLD_MS }),
        waited_ms < BOOTLOADER_HOLD_MS ==> preset_step(PresetStage::Holding, low, waited_ms).1
            == Some(ControllerEvent::NextProfile),
        waited_ms >= BOOTLOADER_HOLD_MS ==> preset_step(PresetStage::Holding, low, waited_ms).1
            == Some(
            if low {
                ControllerEvent::BootloaderRequested
            } else {
                ControllerEvent::NextProfile
            },
        ),
        ({
            let after = preset_step(PresetStage::Holding, low, waited_ms).0;
            let next = preset_step(after, later_low, waited_ms);
            &&& next.1 == None::<ControllerEvent>
            &&& (after is AwaitingRelease ==> preset_step(next.0, later_low, waited_ms).1
                == None::<ControllerEvent>)
        }),
{
}

} // verus!
