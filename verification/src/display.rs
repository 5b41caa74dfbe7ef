//! What the OLED shows for each model: the two text lines of a frame and the
//! acknowledgement owed once a system frame is on screen. Drawing and the
//! I2C transfer stay with the display actor.

use vstd::prelude::*;

use crate::domain::{
    ControllerEvent, Direction, DisplayModel, DisplayPhase, FirmwareError, StateType, SystemStatus,
};

verus! {

/// The bottom line naming an application phase.
pub open spec fn phase_text(phase: DisplayPhase) -> Seq<char> {
    match phase {
        DisplayPhase::Idle => "IDLE"@,
        DisplayPhase::Stable(StateType::Idle) => "IDLE"@,
        DisplayPhase::Stable(StateType::Left) => "LEFT"@,
        DisplayPhase::Stable(StateType::Right) => "RIGHT"@,
        DisplayPhase::Transitioning(Direction::LeftToRight) => "LEFT > RIGHT"@,
        DisplayPhase::Transitioning(Direction::RightToLeft) => "RIGHT > LEFT"@,
    }
}

/// The two lines of a system screen.
pub open spec fn system_text(status: SystemStatus) -> (Seq<char>, Seq<char>) {
    match status {
        SystemStatus::Bootloader => ("BOOTLOADER"@, "FLASHING MODE"@),
        SystemStatus::Fatal(FirmwareError::UsbWriteTimeout) => ("USB ERROR"@, "HOST TIMEOUT"@),
        SystemStatus::Fatal(FirmwareError::UsbDisabled) => ("USB ERROR"@, "DISCONNECTED"@),
        SystemStatus::Fatal(FirmwareError::UsbReportTooLarge) => ("SOFTWARE ERROR"@, "HID REPORT"@),
        SystemStatus::Fatal(FirmwareError::HidCommandQueueFull) => (
            "SOFTWARE ERROR"@,
            "HID QUEUE FULL"@,
        ),
        SystemStatus::Fatal(FirmwareError::NoProfilesConfigured) => (
            "CONFIG ERROR"@,
            "NO PROFILES"@,
        ),
        SystemStatus::Fatal(FirmwareError::InvalidProfile) => ("CONFIG ERROR"@, "BAD PROFILE"@),
    }
}

/// The two lines of the frame for `model`: an application frame shows the
/// profile name over its phase.
pub open spec fn frame_text(model: DisplayModel) -> (Seq<char>, Seq<char>) {
    match model {
        DisplayModel::Application { profile_name, phase, .. } => (profile_name@, phase_text(phase)),
        DisplayModel::System { status, .. } => system_text(status),
    }
}

/// The bottom line for an application phase.
pub fn phase_label(phase: DisplayPhase) -> (s: &'static str)
    ensures
        s@ == phase_text(phase),
{
    match phase {
        DisplayPhase::Idle | DisplayPhase::Stable(StateType::Idle) => "IDLE",
        DisplayPhase::Stable(StateType::Left) => "LEFT",
        DisplayPhase::Stable(StateType::Right) => "RIGHT",
        DisplayPhase::Transitioning(Direction::LeftToRight) => "LEFT > RIGHT",
        DisplayPhase::Transitioning(Direction::RightToLeft) => "RIGHT > LEFT",
    }
}

/// The top and bottom lines of a system screen.
pub fn system_lines(status: SystemStatus) -> (lines: (&'static str, &'static str))
    ensures
        (lines.0@, lines.1@) == system_text(status),
{
    match status {
        SystemStatus::Bootloader => ("BOOTLOADER", "FLASHING MODE"),
        SystemStatus::Fatal(FirmwareError::UsbWriteTimeout) => ("USB ERROR", "HOST TIMEOUT"),
        SystemStatus::Fatal(FirmwareError::UsbDisabled) => ("USB ERROR", "DISCONNECTED"),
        SystemStatus::Fatal(FirmwareError::UsbReportTooLarge) => ("SOFTWARE ERROR", "HID REPORT"),
        SystemStatus::Fatal(FirmwareError::HidCommandQueueFull) => {
            ("SOFTWARE ERROR", "HID QUEUE FULL")
        },
        SystemStatus::Fatal(FirmwareError::NoProfilesConfigured) => ("CONFIG ERROR", "NO PROFILES"),
        SystemStatus::Fatal(FirmwareError::InvalidProfile) => ("CONFIG ERROR", "BAD PROFILE"),
    }
}

/// The top and bottom lines drawn for one model.
pub fn frame_lines(model: DisplayModel) -> (lines: (&'static str, &'static str))
    ensures
        (lines.0@, lines.1@) == frame_text(model),
{
    match model {
        DisplayModel::Application { profile_name, phase, .. } => (profile_name, phase_label(phase)),
        DisplayModel::System { status, .. } => system_lines(status),
    }
}

/// The acknowledgement the display actor sends once `model` is on screen:
/// only system screens are acknowledged, with their request id.
pub fn presented_ack(model: DisplayModel) -> (ack: Option<ControllerEvent>)
    ensures
        ack == (match model {
            DisplayModel::System { request_id, .. } => Some(
                ControllerEvent::DisplayPresented { request_id },
            ),
            DisplayModel::Application { .. } => None,
        }),
{
    match model {
        DisplayModel::System { request_id, .. } => Some(
            ControllerEvent::DisplayPresented { request_id },
        ),
        DisplayModel::Application { .. } => None,
    }
}

/// Which step of driving the OLED failed.
#[derive(Clone, Copy, Debug, PartialEq, Eq, Structural)]
pub enum OledFailure {
    Init,
    Draw,
    Flush,
}

/// What the display actor does after trying to present a model.
#[derive(Clone, Copy, Debug, PartialEq, Eq)]
pub enum PresentAction {
    /// Nothing more: the frame is on screen and owes no acknowledgement.
    Continue,
    /// Tell the controller the system screen is on the panel.
    Acknowledge(ControllerEvent),
    /// The panel failed: show the OLED error screen as best it can and halt.
    Halt(OledFailure),
}

/// The action after presenting `model` ended with `result`.
pub open spec fn present_action(model: DisplayModel, result: Result<(), OledFailure>) -> PresentAction {
    match result {
        Err(failure) => PresentAction::Halt(failure),
        Ok(()) => match model {
            DisplayModel::System { request_id, .. } => PresentAction::Acknowledge(
                ControllerEvent::DisplayPresented { request_id },
            ),
            DisplayModel::Application { .. } => PresentAction::Continue,
        },
    }
}

/// Decide what follows an attempt to present `model`: a failed draw or flush
/// halts the firmware without acknowledging, a shown system screen is
/// acknowledged, a shown application frame needs nothing.
pub fn after_present(model: DisplayModel, result: Result<(), OledFailure>) -> (a: PresentAction)
    ensures
        a == present_action(model, result),
{
    match result {
        Err(failure) => PresentAction::Halt(failure),
        Ok(()) => match presented_ack(model) {
            Some(ack) => PresentAction::Acknowledge(ack),
            None => PresentAction::Continue,
        },
    }
}

/// The two lines of the best-effort screen shown when the OLED itself fails.
pub fn oled_failure_lines(failure: OledFailure) -> (lines: (&'static str, &'static str))
    ensures
        lines.0@ == "OLED ERROR"@,
        lines.1@ == (match failure {
            OledFailure::Init => "INIT FAILED"@,
            OledFailure::Draw => "DRAW FAILED"@,
            OledFailure::Flush => "FLUSH FAILED"@,
        }),
{
    let detail = match failure {
        OledFailure::Init => "INIT FAILED",
        OledFailure::Draw => "DRAW FAILED",
        OledFailure::Flush => "FLUSH FAILED",
    };
    ("OLED ERROR", detail)
}

/// The two lines of the screen shown after an unexpected panic.
pub fn panic_lines() -> (lines: (&'static str, &'static str))
    ensures
        lines.0@ == "PANIC"@,
        lines.1@ == "FIRMWARE HALTED"@,
{
    ("PANIC", "FIRMWARE HALTED")
}

} // verus!
