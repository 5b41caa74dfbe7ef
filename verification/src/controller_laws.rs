//! Properties of the controller's decisions across events.

use vstd::prelude::*;

use crate::controller::{
    after_hid_step, deadline_effects, dispatch_step, fatal_step, following_request_id, hid_rejected_step,
    no_effects, pending_deadline, reboot_after, system_screen, ControllerState, Effects, PendingAction,
    BOOTLOADER_RELEASE_TIMEOUT_MS, USB_GRACE_MS,
};
use crate::domain::{ControllerEvent, DisplayModel, FirmwareError, HidCommand, Profile, SystemStatus};

verus! {

/// The request id that a pending action waits on.
pub open spec fn pending_id(p: PendingAction) -> u32 {
    match p {
        PendingAction::Fatal { request_id } => request_id,
        PendingAction::BootloaderDisplay { request_id } => request_id,
        PendingAction::BootloaderHid { request_id, .. } => request_id,
    }
}

/// The first fatal error is the one shown: while a fatal screen is pending, a
/// later fatal error changes nothing and publishes nothing.
pub proof fn lemma_first_fatal_stays(s: ControllerState, error: FirmwareError)
    requires
        s.pending matches Some(PendingAction::Fatal { .. }),
    ensures
        fatal_step(s, error) == (s, no_effects()),
{
}

/// Once a fatal screen is pending, nothing changes any more and nothing is
/// sent to HID or the display; the firmware halts exactly when that screen
/// is reported shown.
pub proof fn lemma_fatal_screen_is_final(
    s: ControllerState,
    profiles: Seq<Profile>,
    event: ControllerEvent,
    now_ms: u64,
)
    requires
        s.pending matches Some(PendingAction::Fatal { .. }),
    ensures
        ({
            let (next, e) = dispatch_step(s, profiles, event, now_ms);
            &&& next == s
            &&& e.hid is None
            &&& e.display is None
            &&& e.reboot_after_ms is None
            &&& e.halt <==> event == ControllerEvent::DisplayPresented {
                request_id: pending_id(s.pending->0),
            }
        }),
        hid_rejected_step(s) == (s, no_effects()),
        deadline_effects(s, now_ms) == no_effects(),
{
}

/// Once a bootloader hand-over has begun, fatal errors and button events
/// cannot stop it: they change nothing and send nothing.
pub proof fn lemma_bootloader_not_interrupted(
    s: ControllerState,
    profiles: Seq<Profile>,
    event: ControllerEvent,
    now_ms: u64,
)
    requires
        s.pending matches Some(PendingAction::BootloaderDisplay { .. }) || s.pending matches Some(
            PendingAction::BootloaderHid { .. },
        ),
        !(event is DisplayPresented),
        !(event is HidReleasedForBootloader),
    ensures
        dispatch_step(s, profiles, event, now_ms) == (s, no_effects()),
{
}

/// A bootloader request runs the whole hand-over: the bootloader screen is
/// published under the next request id; once it is shown, at `shown_ms`, HID
/// is asked to release everything and the release deadline is set
/// `BOOTLOADER_RELEASE_TIMEOUT_MS` later; once HID confirms, the firmware
/// restarts into the USB bootloader after the USB grace time, and if the
/// deadline is reached first it restarts at once; before the deadline it
/// keeps waiting. If the HID queue is full, it restarts after the grace time.
pub proof fn lemma_bootloader_handover(
    s: ControllerState,
    profiles: Seq<Profile>,
    requested_ms: u64,
    shown_ms: u64,
    later_ms: u64,
)
    requires
        s.pending is None,
        s.profile_index < profiles.len(),
        shown_ms + BOOTLOADER_RELEASE_TIMEOUT_MS <= u64::MAX,
    ensures
        ({
            let n = s.next_request_id;
            let deadline = (shown_ms + BOOTLOADER_RELEASE_TIMEOUT_MS) as u64;
            let (s1, e1) = dispatch_step(
                s,
                profiles,
                ControllerEvent::BootloaderRequested,
                requested_ms,
            );
            let (s2, e2) = dispatch_step(
                s1,
                profiles,
                ControllerEvent::DisplayPresented { request_id: n },
                shown_ms,
            );
            let (s3, e3) = dispatch_step(
                s2,
                profiles,
                ControllerEvent::HidReleasedForBootloader { request_id: n },
                later_ms,
            );
            &&& s1.pending == Some(PendingAction::BootloaderDisplay { request_id: n })
            &&& e1 == system_screen(n, SystemStatus::Bootloader)
            &&& s2.pending == Some(PendingAction::BootloaderHid { request_id: n, deadline_ms: deadline })
            &&& pending_deadline(s2) == Some(deadline)
            &&& e2.hid == Some(HidCommand::ReleaseForBootloader { request_id: n })
            &&& e2.display is None && e2.reboot_after_ms is None
            &&& e3 == reboot_after(USB_GRACE_MS)
            &&& (later_ms >= deadline ==> deadline_effects(s2, later_ms) == reboot_after(0))
            &&& (later_ms < deadline ==> deadline_effects(s2, later_ms) == no_effects())
            &&& hid_rejected_step(s2).1 == reboot_after(USB_GRACE_MS)
        }),
{
}

/// The frame that goes with a HID command is published exactly when the HID
/// queue accepted that command. When the queue refuses it, the frame is
/// dropped: instead, a fatal "HID queue full" screen is shown under the next
/// request id while nothing is pending, or the firmware restarts after the
/// USB grace time during the bootloader hand-over, or, with a fatal screen
/// already pending, nothing happens. Accepting or refusing never sends a
/// further HID command.
pub proof fn lemma_frame_follows_accepted_command(s: ControllerState, effects: Effects)
    ensures
        after_hid_step(s, effects, true) == (
            s,
            Effects { display: effects.display, ..no_effects() },
        ),
        ({
            let (next, e) = after_hid_step(s, effects, false);
            &&& e.hid is None
            &&& !e.halt
            &&& s.pending is None ==> {
                &&& e.display == Some(
                    DisplayModel::System {
                        request_id: s.next_request_id,
                        status: SystemStatus::Fatal(FirmwareError::HidCommandQueueFull),
                    },
                )
                &&& next.pending == Some(PendingAction::Fatal { request_id: s.next_request_id })
            }
            &&& s.pending matches Some(PendingAction::BootloaderHid { .. }) ==> e == reboot_after(
                USB_GRACE_MS,
            ) && next == s
            &&& s.pending matches Some(PendingAction::Fatal { .. }) ==> e == no_effects() && next
                == s
        }),
{
}

/// Nothing but a full release is ever sent to HID while the controller waits
/// on a system screen or hand-over, and nothing pending is ever dropped.
pub proof fn lemma_pending_blocks_outputs(
    s: ControllerState,
    profiles: Seq<Profile>,
    event: ControllerEvent,
    now_ms: u64,
)
    requires
        s.pending is Some,
    ensures
        ({
            let (next, e) = dispatch_step(s, profiles, event, now_ms);
            &&& next.pending is Some
            &&& (e.hid matches Some(command) ==> command is ReleaseForBootloader)
            &&& (e.display matches Some(model) ==> model is System)
        }),
{
}

/// Every system screen is published under the id that the controller then
/// waits on, and the id counter moves on by one (wrapping).
pub proof fn lemma_system_screens_are_tracked(
    s: ControllerState,
    profiles: Seq<Profile>,
    event: ControllerEvent,
    now_ms: u64,
)
    ensures
        ({
            let (next, e) = dispatch_step(s, profiles, event, now_ms);
            e.display matches Some(DisplayModel::System { request_id, .. }) ==> {
                &&& request_id == s.next_request_id
                &&& next.pending is Some
                &&& pending_id(next.pending->0) == request_id
                &&& next.next_request_id == following_request_id(request_id)
            }
        }),
        ({
            let (next, e) = hid_rejected_step(s);
            e.display matches Some(DisplayModel::System { request_id, .. }) ==> {
                &&& next.pending == Some(PendingAction::Fatal { request_id })
                &&& e.display == Some(
                    DisplayModel::System {
                        request_id,
                        status: SystemStatus::Fatal(FirmwareError::HidCommandQueueFull),
                    },
                )
            }
        }),
{
}

/// While nothing is pending, every fatal error is shown: its screen is
/// published under the next request id, the controller waits on exactly that
/// screen, the id counter moves on, and nothing else is sent.
pub proof fn lemma_fatal_error_is_shown(
    s: ControllerState,
    profiles: Seq<Profile>,
    error: FirmwareError,
    now_ms: u64,
)
    requires
        s.pending is None,
    ensures
        dispatch_step(s, profiles, ControllerEvent::FatalError(error), now_ms) == (
            ControllerState {
                pending: Some(PendingAction::Fatal { request_id: s.next_request_id }),
                next_request_id: if s.next_request_id == u32::MAX {
                    0u32
                } else {
                    (s.next_request_id + 1) as u32
                },
                profile_index: s.profile_index,
                phase: s.phase,
                output: s.output,
            },
            Effects {
                halt: false,
                reboot_after_ms: None,
                hid: None,
                display: Some(
                    DisplayModel::System {
                        request_id: s.next_request_id,
                        status: SystemStatus::Fatal(error),
                    },
                ),
            },
        ),
{
}

} // verus!
