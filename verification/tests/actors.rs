use macropad::buttons::{
    classify_preset_press, ButtonWait, PresetButton, Side, SideButton, BOOTLOADER_HOLD_MS,
    DEBOUNCE_MS,
};
use macropad::display::{
    after_present, frame_lines, oled_failure_lines, panic_lines, phase_label, presented_ack,
    system_lines, OledFailure, PresentAction,
};
use macropad::domain::{
    keycodes, ControllerEvent, Direction, DisplayModel, DisplayPhase, FirmwareError, HidCommand,
    HidOutput, Keystrokes, StateType, SystemStatus, TimerCommand,
};
use macropad::hid::{write_result, HidActor, HidReport, HidStep, WriteOutcome, USB_WRITE_TIMEOUT_MS};
use macropad::timer::{
    apply_command, deadline_from_ticks, expire, start_deadline, ActiveTimer, TICKS_PER_MILLI,
};

#[test]
fn phase_labels_name_each_phase() {
    assert_eq!(phase_label(DisplayPhase::Idle), "IDLE");
    assert_eq!(phase_label(DisplayPhase::Stable(StateType::Idle)), "IDLE");
    assert_eq!(phase_label(DisplayPhase::Stable(StateType::Left)), "LEFT");
    assert_eq!(phase_label(DisplayPhase::Stable(StateType::Right)), "RIGHT");
    assert_eq!(phase_label(DisplayPhase::Transitioning(Direction::LeftToRight)), "LEFT > RIGHT");
    assert_eq!(phase_label(DisplayPhase::Transitioning(Direction::RightToLeft)), "RIGHT > LEFT");
}

#[test]
fn system_screens_name_each_status() {
    assert_eq!(system_lines(SystemStatus::Bootloader), ("BOOTLOADER", "FLASHING MODE"));
    let cases = [
        (FirmwareError::UsbWriteTimeout, ("USB ERROR", "HOST TIMEOUT")),
        (FirmwareError::UsbDisabled, ("USB ERROR", "DISCONNECTED")),
        (FirmwareError::UsbReportTooLarge, ("SOFTWARE ERROR", "HID REPORT")),
        (FirmwareError::HidCommandQueueFull, ("SOFTWARE ERROR", "HID QUEUE FULL")),
        (FirmwareError::NoProfilesConfigured, ("CONFIG ERROR", "NO PROFILES")),
        (FirmwareError::InvalidProfile, ("CONFIG ERROR", "BAD PROFILE")),
    ];
    for (error, lines) in cases {
        assert_eq!(system_lines(SystemStatus::Fatal(error)), lines);
    }
}

#[test]
fn frames_and_acknowledgements() {
    let app = DisplayModel::Application {
        profile_name: "Shrooms",
        phase: DisplayPhase::Transitioning(Direction::LeftToRight),
        output: HidOutput::none(),
    };
    assert_eq!(frame_lines(app), ("Shrooms", "LEFT > RIGHT"));
    assert_eq!(presented_ack(app), None);
    let sys = DisplayModel::System { request_id: 9, status: SystemStatus::Bootloader };
    assert_eq!(frame_lines(sys), ("BOOTLOADER", "FLASHING MODE"));
    assert_eq!(presented_ack(sys), Some(ControllerEvent::DisplayPresented { request_id: 9 }));
    assert_eq!(oled_failure_lines(OledFailure::Init), ("OLED ERROR", "INIT FAILED"));
    assert_eq!(oled_failure_lines(OledFailure::Draw), ("OLED ERROR", "DRAW FAILED"));
    assert_eq!(oled_failure_lines(OledFailure::Flush), ("OLED ERROR", "FLUSH FAILED"));
    assert_eq!(panic_lines(), ("PANIC", "FIRMWARE HALTED"));
}

#[test]
fn write_outcomes_map_to_firmware_errors() {
    assert_eq!(write_result(WriteOutcome::Written), Ok(()));
    assert_eq!(write_result(WriteOutcome::Disabled), Err(FirmwareError::UsbDisabled));
    assert_eq!(write_result(WriteOutcome::BufferOverflow), Err(FirmwareError::UsbReportTooLarge));
    assert_eq!(write_result(WriteOutcome::TimedOut), Err(FirmwareError::UsbWriteTimeout));
}

fn all_reports(actor: &HidActor, command: HidCommand) -> Vec<HidReport> {
    let mut reports = Vec::new();
    let mut index = 0;
    while let Some(report) = actor.report_at(command, index) {
        reports.push(report);
        index += 1;
    }
    reports
}

#[test]
fn set_output_releases_then_writes_whole_output() {
    let actor = HidActor::new();
    let output = HidOutput::new(Keystrokes::two(keycodes::W, keycodes::D), 1);
    let reports = all_reports(&actor, HidCommand::SetOutput(output));
    assert_eq!(
        reports,
        vec![
            HidReport::Keyboard([0; 8]),
            HidReport::Mouse([0; 5]),
            HidReport::Keyboard([0, 0, 26, 7, 0, 0, 0, 0]),
            HidReport::Mouse([1, 0, 0, 0, 0]),
        ]
    );
    let release = vec![HidReport::Keyboard([0; 8]), HidReport::Mouse([0; 5])];
    assert_eq!(all_reports(&actor, HidCommand::ReleaseAll), release);
    assert_eq!(all_reports(&actor, HidCommand::ReleaseForBootloader { request_id: 4 }), release);
}

#[test]
fn hid_failure_is_reported_once_then_drained() {
    let mut actor = HidActor::new();
    assert_eq!(actor.finish(HidCommand::ReleaseAll, Ok(())), None);
    let ev = actor.finish(HidCommand::ReleaseAll, Err(FirmwareError::UsbWriteTimeout));
    assert_eq!(ev, Some(ControllerEvent::FatalError(FirmwareError::UsbWriteTimeout)));
    assert!(all_reports(&actor, HidCommand::ReleaseAll).is_empty());
    assert_eq!(actor.finish(HidCommand::ReleaseAll, Err(FirmwareError::UsbDisabled)), None);
    let ack = actor.finish(HidCommand::ReleaseForBootloader { request_id: 5 }, Ok(()));
    assert_eq!(ack, Some(ControllerEvent::HidReleasedForBootloader { request_id: 5 }));
}

#[test]
fn bootloader_release_is_acknowledged_even_when_it_fails() {
    let mut actor = HidActor::new();
    let ack = actor.finish(
        HidCommand::ReleaseForBootloader { request_id: 2 },
        Err(FirmwareError::UsbDisabled),
    );
    assert_eq!(ack, Some(ControllerEvent::HidReleasedForBootloader { request_id: 2 }));
    assert_eq!(all_reports(&actor, HidCommand::ReleaseAll).len(), 2);
}

#[test]
fn start_deadline_adds_the_duration_in_ticks() {
    // The firmware's time driver ticks at 1 MHz: one millisecond is 1000 ticks.
    assert_eq!(TICKS_PER_MILLI, 1_000);
    assert_eq!(start_deadline(0, u32::MAX), Some(u32::MAX as u64 * 1_000));
    assert_eq!(start_deadline(5, 2_000), Some(2_000_005));
    assert_eq!(start_deadline(0, 0), Some(0));
    assert_eq!(start_deadline(u64::MAX, 0), Some(u64::MAX));
    assert_eq!(start_deadline(u64::MAX, 1), None);
}

#[test]
fn timer_commands_arm_replace_and_cancel() {
    let mut active = None;
    assert!(apply_command(&mut active, TimerCommand::Start { generation: 1, duration_ms: 2 }, 10));
    assert_eq!(active, Some(ActiveTimer { generation: 1, deadline_ticks: 2_010 }));
    assert!(apply_command(&mut active, TimerCommand::Start { generation: 2, duration_ms: 1 }, 20));
    assert_eq!(active, Some(ActiveTimer { generation: 2, deadline_ticks: 1_020 }));
    // A stale cancel leaves the newer timer armed.
    assert!(apply_command(&mut active, TimerCommand::Cancel { generation: 1 }, 30));
    assert_eq!(active, Some(ActiveTimer { generation: 2, deadline_ticks: 1_020 }));
    assert!(apply_command(&mut active, TimerCommand::Cancel { generation: 2 }, 40));
    assert_eq!(active, None);
    assert!(!apply_command(&mut active, TimerCommand::Start { generation: 3, duration_ms: 1 }, u64::MAX));
    assert_eq!(active, None);
}

#[test]
fn expired_timer_reports_its_generation() {
    let mut active = Some(ActiveTimer { generation: 7, deadline_ticks: 100 });
    assert_eq!(expire(&mut active), Some(ControllerEvent::TransitionElapsed { generation: 7 }));
    assert_eq!(active, None);
    assert_eq!(expire(&mut active), None);
}

#[test]
fn side_button_reports_debounced_press_then_release() {
    assert_eq!(DEBOUNCE_MS, 30);
    let mut b = SideButton::new(Side::Left);
    assert_eq!(b.next_wait(), ButtonWait::FallingEdge);
    assert_eq!(b.wait_done(true), None);
    assert_eq!(b.next_wait(), ButtonWait::Sleep { ms: 30 });
    // A bounce: high again after the debounce sleep.
    assert_eq!(b.wait_done(false), None);
    assert_eq!(b.next_wait(), ButtonWait::FallingEdge);
    assert_eq!(b.wait_done(true), None);
    assert_eq!(b.wait_done(true), Some(ControllerEvent::LeftPressed));
    assert_eq!(b.next_wait(), ButtonWait::High);
    assert_eq!(b.wait_done(false), None);
    assert_eq!(b.next_wait(), ButtonWait::Sleep { ms: 30 });
    // Low again after the debounce sleep: still held, no release.
    assert_eq!(b.wait_done(true), None);
    assert_eq!(b.next_wait(), ButtonWait::High);
    assert_eq!(b.wait_done(false), None);
    assert_eq!(b.wait_done(false), Some(ControllerEvent::LeftReleased));
    assert_eq!(b.next_wait(), ButtonWait::FallingEdge);
    let mut r = SideButton::new(Side::Right);
    r.wait_done(true);
    assert_eq!(r.wait_done(true), Some(ControllerEvent::RightPressed));
    r.wait_done(false);
    assert_eq!(r.wait_done(false), Some(ControllerEvent::RightReleased));
}

#[test]
fn preset_press_classification() {
    assert_eq!(BOOTLOADER_HOLD_MS, 5_000);
    assert_eq!(classify_preset_press(1_200, false), ControllerEvent::NextProfile);
    assert_eq!(classify_preset_press(4_999, true), ControllerEvent::NextProfile);
    assert_eq!(classify_preset_press(5_000, true), ControllerEvent::BootloaderRequested);
    assert_eq!(classify_preset_press(5_000, false), ControllerEvent::NextProfile);
}

#[test]
fn preset_button_short_press_switches_profile() {
    let mut b = PresetButton::new();
    assert_eq!(b.next_wait(), ButtonWait::FallingEdge);
    assert_eq!(b.wait_done(true, 0), None);
    assert_eq!(b.next_wait(), ButtonWait::Sleep { ms: 30 });
    assert_eq!(b.wait_done(true, 30), None);
    assert_eq!(b.next_wait(), ButtonWait::RiseOrTimeout { ms: 5_000 });
    assert_eq!(b.wait_done(false, 800), Some(ControllerEvent::NextProfile));
    assert_eq!(b.next_wait(), ButtonWait::Sleep { ms: 30 });
    assert_eq!(b.wait_done(false, 30), None);
    assert_eq!(b.next_wait(), ButtonWait::FallingEdge);
}

#[test]
fn preset_button_long_press_requests_bootloader_once() {
    let mut b = PresetButton::new();
    b.wait_done(true, 0);
    b.wait_done(true, 30);
    assert_eq!(b.wait_done(true, 5_000), Some(ControllerEvent::BootloaderRequested));
    assert_eq!(b.next_wait(), ButtonWait::High);
    assert_eq!(b.wait_done(false, 7_000), None);
    assert_eq!(b.next_wait(), ButtonWait::Sleep { ms: 30 });
    assert_eq!(b.wait_done(false, 30), None);
    assert_eq!(b.next_wait(), ButtonWait::FallingEdge);
}

#[test]
fn preset_button_bounce_and_release_race() {
    let mut b = PresetButton::new();
    b.wait_done(true, 0);
    // Not low after the debounce sleep: nothing is sent.
    assert_eq!(b.wait_done(false, 30), None);
    assert_eq!(b.next_wait(), ButtonWait::FallingEdge);
    b.wait_done(true, 0);
    b.wait_done(true, 30);
    // The hold time ran out but the pin is already high.
    assert_eq!(b.wait_done(false, 5_000), Some(ControllerEvent::NextProfile));
}

#[test]
fn present_outcomes() {
    let app = DisplayModel::Application {
        profile_name: "Shrooms",
        phase: DisplayPhase::Idle,
        output: HidOutput::none(),
    };
    let sys = DisplayModel::System { request_id: 4, status: SystemStatus::Bootloader };
    assert_eq!(after_present(app, Ok(())), PresentAction::Continue);
    assert_eq!(
        after_present(sys, Ok(())),
        PresentAction::Acknowledge(ControllerEvent::DisplayPresented { request_id: 4 })
    );
    assert_eq!(after_present(sys, Err(OledFailure::Flush)), PresentAction::Halt(OledFailure::Flush));
    assert_eq!(after_present(app, Err(OledFailure::Draw)), PresentAction::Halt(OledFailure::Draw));
}

#[test]
fn hid_steps_stop_at_first_failure() {
    assert_eq!(USB_WRITE_TIMEOUT_MS, 1_000);
    let actor = HidActor::new();
    let output = HidOutput::new(Keystrokes::one(keycodes::A), 1);
    let command = HidCommand::SetOutput(output);
    assert_eq!(actor.start_command(command), HidStep::Write(HidReport::Keyboard([0; 8])));
    assert_eq!(actor.after_write(command, 0, WriteOutcome::Written), HidStep::Write(HidReport::Mouse([0; 5])));
    assert_eq!(
        actor.after_write(command, 1, WriteOutcome::Written),
        HidStep::Write(HidReport::Keyboard([0, 0, 4, 0, 0, 0, 0, 0]))
    );
    assert_eq!(
        actor.after_write(command, 2, WriteOutcome::TimedOut),
        HidStep::Done(Err(FirmwareError::UsbWriteTimeout))
    );
    assert_eq!(
        actor.after_write(command, 2, WriteOutcome::Written),
        HidStep::Write(HidReport::Mouse([1, 0, 0, 0, 0]))
    );
    assert_eq!(actor.after_write(command, 3, WriteOutcome::Written), HidStep::Done(Ok(())));
    assert_eq!(
        actor.after_write(HidCommand::ReleaseAll, 1, WriteOutcome::Written),
        HidStep::Done(Ok(()))
    );
    assert_eq!(
        actor.after_write(HidCommand::ReleaseAll, 0, WriteOutcome::Disabled),
        HidStep::Done(Err(FirmwareError::UsbDisabled))
    );
    let mut failed = HidActor::new();
    failed.finish(HidCommand::ReleaseAll, Err(FirmwareError::UsbDisabled));
    assert_eq!(failed.start_command(command), HidStep::Done(Ok(())));
}

#[test]
fn deadline_from_ticks_adds_or_refuses() {
    assert_eq!(deadline_from_ticks(10, 5), Some(15));
    assert_eq!(deadline_from_ticks(u64::MAX, 1), None);
    assert_eq!(deadline_from_ticks(u64::MAX - 1, 1), Some(u64::MAX));
}
