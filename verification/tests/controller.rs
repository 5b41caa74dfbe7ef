use macropad::controller::{ControllerCore, Effects, BOOTLOADER_RELEASE_TIMEOUT_MS, USB_GRACE_MS};
use macropad::domain::{
    ControllerEvent, DisplayModel, DisplayPhase, FirmwareError, HidCommand, HidOutput, Profile,
    StateType, SystemStatus,
};
use macropad::profiles::profiles;

fn nothing() -> Effects {
    Effects {
        halt: false,
        reboot_after_ms: None,
        hid: None,
        display: None,
    }
}

fn screen(request_id: u32, status: SystemStatus) -> Effects {
    Effects { display: Some(DisplayModel::System { request_id, status }), ..nothing() }
}

#[test]
fn start_without_profiles_shows_fatal_screen() {
    let ps: [Profile; 0] = [];
    let (_core, e) = ControllerCore::start(&ps);
    assert_eq!(e, screen(1, SystemStatus::Fatal(FirmwareError::NoProfilesConfigured)));
}

#[test]
fn start_with_invalid_profile_shows_fatal_screen() {
    let mut ps = profiles();
    ps[2].left.kind = StateType::Right;
    let (mut core, e) = ControllerCore::start(&ps);
    assert_eq!(e, screen(1, SystemStatus::Fatal(FirmwareError::InvalidProfile)));
    // The automaton never runs with invalid profiles.
    assert_eq!(core.dispatch(ControllerEvent::LeftPressed, 100), nothing());
}

#[test]
fn start_with_valid_profiles_releases_and_shows_first_profile() {
    let ps = profiles();
    let (_core, e) = ControllerCore::start(&ps);
    assert_eq!(e.hid, Some(HidCommand::ReleaseAll));
    assert_eq!(
        e.display,
        Some(DisplayModel::Application {
            profile_name: "Eclipse/Rose/Cane",
            phase: DisplayPhase::Idle,
            output: HidOutput::none(),
        })
    );
    assert!(!e.halt && e.reboot_after_ms.is_none());
}

#[test]
fn button_events_are_forwarded_from_the_automaton() {
    let ps = profiles();
    let (mut core, _) = ControllerCore::start(&ps);
    let e = core.dispatch(ControllerEvent::LeftPressed, 100);
    assert_eq!(e.hid, Some(HidCommand::SetOutput(ps[0].left.output)));
    assert!(matches!(e.display, Some(DisplayModel::Application { .. })));
}

#[test]
fn fatal_error_halts_only_after_its_screen_is_shown() {
    let ps = profiles();
    let (mut core, _) = ControllerCore::start(&ps);
    let e = core.dispatch(ControllerEvent::FatalError(FirmwareError::UsbWriteTimeout), 100);
    assert_eq!(e, screen(1, SystemStatus::Fatal(FirmwareError::UsbWriteTimeout)));
    // A second fatal error keeps the first screen.
    assert_eq!(core.dispatch(ControllerEvent::FatalError(FirmwareError::UsbDisabled), 100), nothing());
    // Button events no longer reach the automaton.
    assert_eq!(core.dispatch(ControllerEvent::RightPressed, 100), nothing());
    assert_eq!(core.dispatch(ControllerEvent::BootloaderRequested, 100), nothing());
    // A stale acknowledgement changes nothing.
    assert_eq!(core.dispatch(ControllerEvent::DisplayPresented { request_id: 7 }, 100), nothing());
    let e = core.dispatch(ControllerEvent::DisplayPresented { request_id: 1 }, 100);
    assert_eq!(e, Effects { halt: true, ..nothing() });
}

#[test]
fn bootloader_handover_runs_to_reboot() {
    let ps = profiles();
    let (mut core, _) = ControllerCore::start(&ps);
    let e = core.dispatch(ControllerEvent::BootloaderRequested, 100);
    assert_eq!(e, screen(1, SystemStatus::Bootloader));
    assert_eq!(core.release_deadline(), None);
    // Fatal errors cannot interrupt the hand-over.
    assert_eq!(core.dispatch(ControllerEvent::FatalError(FirmwareError::UsbDisabled), 150), nothing());
    assert_eq!(core.release_deadline_elapsed(10_000), nothing());
    let e = core.dispatch(ControllerEvent::DisplayPresented { request_id: 1 }, 1_000);
    assert_eq!(
        e,
        Effects { hid: Some(HidCommand::ReleaseForBootloader { request_id: 1 }), ..nothing() }
    );
    assert_eq!(BOOTLOADER_RELEASE_TIMEOUT_MS, 2_500);
    assert_eq!(core.release_deadline(), Some(3_500));
    assert_eq!(core.dispatch(ControllerEvent::HidReleasedForBootloader { request_id: 2 }, 1_200), nothing());
    assert_eq!(core.release_deadline_elapsed(3_499), nothing());
    assert_eq!(core.release_deadline_elapsed(3_500), Effects { reboot_after_ms: Some(0), ..nothing() });
    let e = core.dispatch(ControllerEvent::HidReleasedForBootloader { request_id: 1 }, 1_300);
    assert_eq!(USB_GRACE_MS, 30);
    assert_eq!(e, Effects { reboot_after_ms: Some(30), ..nothing() });
}

#[test]
fn full_hid_queue_shows_fatal_screen() {
    let ps = profiles();
    let (mut core, _) = ControllerCore::start(&ps);
    core.dispatch(ControllerEvent::LeftPressed, 100);
    let e = core.hid_queue_full();
    assert_eq!(e, screen(1, SystemStatus::Fatal(FirmwareError::HidCommandQueueFull)));
    assert_eq!(core.hid_queue_full(), nothing());
}

#[test]
fn full_hid_queue_during_handover_reboots_anyway() {
    let ps = profiles();
    let (mut core, _) = ControllerCore::start(&ps);
    core.dispatch(ControllerEvent::BootloaderRequested, 100);
    core.dispatch(ControllerEvent::DisplayPresented { request_id: 1 }, 100);
    assert_eq!(core.hid_queue_full(), Effects { reboot_after_ms: Some(30), ..nothing() });
}

#[test]
fn invalid_start_halts_after_its_screen_is_shown() {
    let mut ps = profiles();
    ps[0].idle.kind = StateType::Left;
    let (mut core, _) = ControllerCore::start(&ps);
    assert_eq!(core.dispatch(ControllerEvent::DisplayPresented { request_id: 2 }, 100), nothing());
    assert_eq!(core.dispatch(ControllerEvent::DisplayPresented { request_id: 1 }, 100).halt, true);
}

#[test]
fn frame_is_published_only_after_hid_accepts() {
    let ps = profiles();
    let (mut core, _) = ControllerCore::start(&ps);
    let e = core.dispatch(ControllerEvent::RightPressed, 100);
    let frame = e.display;
    assert!(frame.is_some());
    assert_eq!(core.after_hid(e, true), Effects { display: frame, ..nothing() });
    let e = core.dispatch(ControllerEvent::RightPressed, 200);
    let refused = core.after_hid(e, false);
    assert_eq!(refused, screen(1, SystemStatus::Fatal(FirmwareError::HidCommandQueueFull)));
    assert_ne!(refused.display, e.display);
}

#[test]
fn refused_release_during_handover_reboots_after_grace() {
    let ps = profiles();
    let (mut core, _) = ControllerCore::start(&ps);
    core.dispatch(ControllerEvent::BootloaderRequested, 100);
    let e = core.dispatch(ControllerEvent::DisplayPresented { request_id: 1 }, 100);
    assert_eq!(core.after_hid(e, false), Effects { reboot_after_ms: Some(USB_GRACE_MS), ..nothing() });
    assert_eq!(core.after_hid(e, true), nothing());
}
