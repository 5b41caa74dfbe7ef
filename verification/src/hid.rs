//! Decisions of the HID actor: which reports a command writes, how a USB
//! write ends, and what the controller is told afterwards. Writing the
//! reports and waiting for the USB host stay with the actor.

use vstd::prelude::*;

use crate::domain::profile::{keyboard_report_of, mouse_report_of};
use crate::domain::{ControllerEvent, FirmwareError, HidCommand, HidOutput};

verus! {

/// One report written to one of the two HID interfaces.
#[derive(Clone, Copy, Debug, PartialEq, Eq)]
pub enum HidReport {
    Keyboard([u8; 8]),
    Mouse([u8; 5]),
}

/// How long the USB host may take to accept one report.
pub const USB_WRITE_TIMEOUT_MS: u64 = 1000;

/// How one USB report write ended.
#[derive(Clone, Copy, Debug, PartialEq, Eq, Structural)]
pub enum WriteOutcome {
    /// The host took the report.
    Written,
    /// The endpoint is disabled (the host disconnected or never configured it).
    Disabled,
    /// The report does not fit the endpoint.
    BufferOverflow,
    /// The host did not take the report within `USB_WRITE_TIMEOUT_MS`.
    TimedOut,
}

/// The result of a write as the firmware reports it.
pub open spec fn outcome_result(outcome: WriteOutcome) -> Result<(), FirmwareError> {
    match outcome {
        WriteOutcome::Written => Ok(()),
        WriteOutcome::Disabled => Err(FirmwareError::UsbDisabled),
        WriteOutcome::BufferOverflow => Err(FirmwareError::UsbReportTooLarge),
        WriteOutcome::TimedOut => Err(FirmwareError::UsbWriteTimeout),
    }
}

/// Map the end of a USB write to the firmware's error, if any.
pub fn write_result(outcome: WriteOutcome) -> (r: Result<(), FirmwareError>)
    ensures
        r == outcome_result(outcome),
{
    match outcome {
        WriteOutcome::Written => Ok(()),
        WriteOutcome::Disabled => Err(FirmwareError::UsbDisabled),
        WriteOutcome::BufferOverflow => Err(FirmwareError::UsbReportTooLarge),
        WriteOutcome::TimedOut => Err(FirmwareError::UsbWriteTimeout),
    }
}

/// The all-zero keyboard report.
pub open spec fn empty_keyboard() -> HidReport {
    HidReport::Keyboard([0u8, 0u8, 0u8, 0u8, 0u8, 0u8, 0u8, 0u8])
}

/// The all-zero mouse report.
pub open spec fn empty_mouse() -> HidReport {
    HidReport::Mouse([0u8, 0u8, 0u8, 0u8, 0u8])
}

/// The keyboard report of an output, as a report to write.
pub open spec fn keyboard_report(output: HidOutput) -> HidReport {
    let k = output.keystrokes;
    HidReport::Keyboard(
        [
            k.modifiers,
            0u8,
            k.keycodes[0],
            k.keycodes[1],
            k.keycodes[2],
            k.keycodes[3],
            k.keycodes[4],
            k.keycodes[5],
        ],
    )
}

/// The mouse report of an output, as a report to write.
pub open spec fn mouse_report(output: HidOutput) -> HidReport {
    HidReport::Mouse([output.mouse_buttons, 0u8, 0u8, 0u8, 0u8])
}

/// The reports written for `command`, in order: a draining actor writes
/// nothing; otherwise every command first releases everything on both
/// interfaces, and a new output is then written whole, keyboard before mouse.
pub open spec fn planned_reports(draining: bool, command: HidCommand) -> Seq<HidReport> {
    if draining {
        seq![]
    } else {
        match command {
            HidCommand::SetOutput(output) => seq![
                empty_keyboard(),
                empty_mouse(),
                keyboard_report(output),
                mouse_report(output),
            ],
            _ => seq![empty_keyboard(), empty_mouse()],
        }
    }
}

/// The bytes of a report.
pub open spec fn report_bytes(r: HidReport) -> Seq<u8> {
    match r {
        HidReport::Keyboard(bytes) => bytes@,
        HidReport::Mouse(bytes) => bytes@,
    }
}

/// The planned reports of an output carry exactly its keyboard and mouse
/// report bytes.
pub proof fn lemma_planned_reports_carry_output(output: HidOutput)
    ensures
        report_bytes(keyboard_report(output)) == keyboard_report_of(output),
        report_bytes(mouse_report(output)) == mouse_report_of(output),
{
    assert(report_bytes(keyboard_report(output)) =~= keyboard_report_of(output));
    assert(report_bytes(mouse_report(output)) =~= mouse_report_of(output));
}

/// What the HID actor does next while carrying out one command.
#[derive(Clone, Copy, Debug, PartialEq, Eq)]
pub enum HidStep {
    /// Write this report.
    Write(HidReport),
    /// The command is finished with this result; hand it to `finish`.
    Done(Result<(), FirmwareError>),
}

/// The first step of carrying out `command`.
pub open spec fn first_step(draining: bool, command: HidCommand) -> HidStep {
    let plan = planned_reports(draining, command);
    if plan.len() > 0 {
        HidStep::Write(plan[0])
    } else {
        HidStep::Done(Ok(()))
    }
}

/// The step after the write of planned report `index` ended with `outcome`:
/// the first failure ends the command; otherwise the next report is written,
/// and after the last one the command succeeded.
pub open spec fn next_step(
    draining: bool,
    command: HidCommand,
    index: int,
    outcome: WriteOutcome,
) -> HidStep {
    let plan = planned_reports(draining, command);
    match outcome_result(outcome) {
        Err(error) => HidStep::Done(Err(error)),
        Ok(()) => if index + 1 < plan.len() {
            HidStep::Write(plan[index + 1])
        } else {
            HidStep::Done(Ok(()))
        },
    }
}

/// A healthy actor carries out every command whole when all writes succeed:
/// it releases the keyboard, then the mouse; a new output is then written,
/// keyboard report before mouse report; after that the command is done. Any
/// failed write ends the command at once with that write's error.
pub proof fn lemma_commands_write_whole_plan(command: HidCommand, index: int, outcome: WriteOutcome)
    ensures
        first_step(false, command) == HidStep::Write(
            HidReport::Keyboard([0u8, 0u8, 0u8, 0u8, 0u8, 0u8, 0u8, 0u8]),
        ),
        next_step(false, command, 0, WriteOutcome::Written) == HidStep::Write(
            HidReport::Mouse([0u8, 0u8, 0u8, 0u8, 0u8]),
        ),
        command matches HidCommand::SetOutput(output) ==> {
            let k = output.keystrokes;
            &&& next_step(false, command, 1, WriteOutcome::Written) == HidStep::Write(
                HidReport::Keyboard(
                    [
                        k.modifiers,
                        0u8,
                        k.keycodes[0],
                        k.keycodes[1],
                        k.keycodes[2],
                        k.keycodes[3],
                        k.keycodes[4],
                        k.keycodes[5],
                    ],
                ),
            )
            &&& next_step(false, command, 2, WriteOutcome::Written) == HidStep::Write(
                HidReport::Mouse([output.mouse_buttons, 0u8, 0u8, 0u8, 0u8]),
            )
            &&& next_step(false, command, 3, WriteOutcome::Written) == HidStep::Done(Ok(()))
        },
        !(command is SetOutput) ==> next_step(false, command, 1, WriteOutcome::Written)
            == HidStep::Done(Ok(())),
        outcome != WriteOutcome::Written ==> next_step(false, command, index, outcome)
            == HidStep::Done(
            Err(
                match outcome {
                    WriteOutcome::Disabled => FirmwareError::UsbDisabled,
                    WriteOutcome::BufferOverflow => FirmwareError::UsbReportTooLarge,
                    _ => FirmwareError::UsbWriteTimeout,
                },
            ),
        ),
        first_step(true, command) == HidStep::Done(Ok(())),
{
}

/// The HID actor's decision state: healthy, or draining its queue after a
/// failed write.
pub struct HidActor {
    draining: bool,
}

/// The event the actor sends once the reports for `command` were written with
/// `result` (the first failure, or success), by an actor draining or not.
pub open spec fn finish_event(
    draining: bool,
    command: HidCommand,
    result: Result<(), FirmwareError>,
) -> Option<ControllerEvent> {
    match command {
        HidCommand::ReleaseForBootloader { request_id } => Some(
            ControllerEvent::HidReleasedForBootloader { request_id },
        ),
        _ => if draining {
            None
        } else {
            match result {
                Ok(()) => None,
                Err(error) => Some(ControllerEvent::FatalError(error)),
            }
        },
    }
}

impl HidActor {
    /// Whether the actor has failed and only drains its queue.
    pub closed spec fn is_draining(&self) -> bool {
        self.draining
    }

    pub fn new() -> (a: Self)
        ensures
            !a.is_draining(),
    {
        HidActor { draining: false }
    }

    /// The `index`-th report to write for `command`, or `None` once all
    /// reports were written.
    pub fn report_at(&self, command: HidCommand, index: usize) -> (r: Option<HidReport>)
        ensures
            r == (if index < planned_reports(self.is_draining(), command).len() {
                Some(planned_reports(self.is_draining(), command)[index as int])
            } else {
                None
            }),
    {
        if self.draining {
            return None;
        }
        match (command, index) {
            (_, 0) => Some(HidReport::Keyboard([0, 0, 0, 0, 0, 0, 0, 0])),
            (_, 1) => Some(HidReport::Mouse([0, 0, 0, 0, 0])),
            (HidCommand::SetOutput(output), 2) => {
                let bytes = output.keyboard_report();
                proof {
                    broadcast use vstd::array::group_array_axioms;

                    let expected = keyboard_report(output)->Keyboard_0;
                    assert(bytes@[2] == output.keystrokes.keycodes@[0]);
                    assert(bytes =~= expected);
                }
                Some(HidReport::Keyboard(bytes))
            },
            (HidCommand::SetOutput(output), 3) => {
                let bytes = output.mouse_report();
                proof {
                    broadcast use vstd::array::group_array_axioms;

                    let expected = mouse_report(output)->Mouse_0;
                    assert(bytes =~= expected);
                }
                Some(HidReport::Mouse(bytes))
            },
            _ => None,
        }
    }

    /// The first step of carrying out `command`.
    pub fn start_command(&self, command: HidCommand) -> (step: HidStep)
        ensures
            step == first_step(self.is_draining(), command),
    {
        match self.report_at(command, 0) {
            Some(report) => HidStep::Write(report),
            None => HidStep::Done(Ok(())),
        }
    }

    /// The step after the write of report `index` of `command` ended with
    /// `outcome`.
    pub fn after_write(&self, command: HidCommand, index: usize, outcome: WriteOutcome) -> (step:
        HidStep)
        requires
            index < planned_reports(self.is_draining(), command).len(),
        ensures
            step == next_step(self.is_draining(), command, index as int, outcome),
    {
        match write_result(outcome) {
            Err(error) => HidStep::Done(Err(error)),
            Ok(()) => match self.report_at(command, index + 1) {
                Some(report) => HidStep::Write(report),
                None => HidStep::Done(Ok(())),
            },
        }
    }

    /// Record how writing the reports for `command` ended and return the event
    /// owed to the controller. A bootloader release is always acknowledged,
    /// even if it failed; any other failure is reported once, after which the
    /// actor only drains its queue.
    pub fn finish(&mut self, command: HidCommand, result: Result<(), FirmwareError>) -> (ev: Option<
        ControllerEvent,
    >)
        ensures
            ev == finish_event(old(self).is_draining(), command, result),
            final(self).is_draining() == (old(self).is_draining() || (!(
            command is ReleaseForBootloader) && result is Err)),
    {
        match command {
            HidCommand::ReleaseForBootloader { request_id } => Some(
                ControllerEvent::HidReleasedForBootloader { request_id },
            ),
            _ => {
                if self.draining {
                    return None;
                }
                match result {
                    Ok(()) => None,
                    Err(error) => {
                        self.draining = true;
                        Some(ControllerEvent::FatalError(error))
                    },
                }
            },
        }
    }
}

} // verus!
