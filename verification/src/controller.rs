//! Decisions of the controller actor, the sole owner of mutable automaton
//! state: start-up validation, event dispatch, fatal screens and the
//! bootloader hand-over. The actor itself only moves messages and waits.

use vstd::prelude::*;

use crate::domain::automaton::{all_valid, event_outcome, idle_outcome};
use crate::domain::automaton_laws::{consistent, lemma_event_keeps_consistent};
use crate::domain::profile::no_output;
use crate::domain::{
    AutomatonRuntime, ControllerEvent, Decision, DisplayModel, FirmwareError, HidCommand,
    HidOutput, Profile, RuntimePhase, SystemStatus,
};

verus! {

/// A system screen or hand-over the controller is waiting on. While one is
/// pending, the automaton receives no events.
#[derive(Clone, Copy, Debug, PartialEq, Eq, Structural)]
pub enum PendingAction {
    /// The fatal screen `request_id` was published; halt once it is shown.
    Fatal { request_id: u32 },
    /// The bootloader screen `request_id` was published; release HID once it is shown.
    BootloaderDisplay { request_id: u32 },
    /// HID was asked to release everything; restart into BOOTSEL once it
    /// confirms, or once the clock reaches `deadline_ms`.
    BootloaderHid { request_id: u32, deadline_ms: u64 },
}

/// How long HID may take to confirm its release before the firmware restarts
/// into the bootloader anyway, counted from when the bootloader screen is shown.
pub const BOOTLOADER_RELEASE_TIMEOUT_MS: u64 = 2500;

/// How long USB is kept alive after HID confirmed its release (or could not be
/// asked to) before the restart, so the empty reports reach the host.
pub const USB_GRACE_MS: u64 = 30;

/// What the controller actor must carry out after one decision, in this order:
/// halt or restart if asked; offer `hid` to the HID queue without waiting and
/// carry out what `after_hid` returns for that offer; otherwise publish
/// `display`.
#[derive(Clone, Copy, Debug, PartialEq, Eq)]
pub struct Effects {
    /// Keep the fatal screen visible and halt the firmware.
    pub halt: bool,
    /// Wait this many milliseconds, then restart into the ROM USB bootloader.
    pub reboot_after_ms: Option<u64>,
    /// Command to enqueue for the HID actor.
    pub hid: Option<HidCommand>,
    /// Frame to publish for the display actor.
    pub display: Option<DisplayModel>,
}

/// The abstract state of the controller: what it waits on, the next system
/// request id, and the automaton's profile index, phase and output.
pub struct ControllerState {
    pub pending: Option<PendingAction>,
    pub next_request_id: u32,
    pub profile_index: usize,
    pub phase: RuntimePhase,
    pub output: HidOutput,
}

/// Nothing to do.
pub open spec fn no_effects() -> Effects {
    Effects {
        halt: false,
        reboot_after_ms: None,
        hid: None,
        display: None,
    }
}

/// Restart into the bootloader after `delay_ms`.
pub open spec fn reboot_after(delay_ms: u64) -> Effects {
    Effects { reboot_after_ms: Some(delay_ms), ..no_effects() }
}

/// `event` is the acknowledgement that starts the HID release, and with it the
/// release deadline.
pub open spec fn starts_release(s: ControllerState, event: ControllerEvent) -> bool {
    event matches ControllerEvent::DisplayPresented { request_id } && s.pending == Some(
        PendingAction::BootloaderDisplay { request_id },
    )
}

/// Publish the system screen `request_id` showing `status`.
pub open spec fn system_screen(request_id: u32, status: SystemStatus) -> Effects {
    Effects { display: Some(DisplayModel::System { request_id, status }), ..no_effects() }
}

/// The request id allocated after `id`, wrapping around.
pub open spec fn following_request_id(id: u32) -> u32 {
    if id == u32::MAX {
        0
    } else {
        (id + 1) as u32
    }
}

/// Show the fatal `error` under the next request id, unless a fatal screen
/// is already pending.
pub open spec fn fatal_step(s: ControllerState, error: FirmwareError) -> (ControllerState, Effects) {
    if s.pending matches Some(PendingAction::Fatal { .. }) {
        (s, no_effects())
    } else {
        (
            ControllerState {
                pending: Some(PendingAction::Fatal { request_id: s.next_request_id }),
                next_request_id: following_request_id(s.next_request_id),
                ..s
            },
            system_screen(s.next_request_id, SystemStatus::Fatal(error)),
        )
    }
}

/// Show the bootloader screen under the next request id.
pub open spec fn bootloader_step(s: ControllerState) -> (ControllerState, Effects) {
    (
        ControllerState {
            pending: Some(PendingAction::BootloaderDisplay { request_id: s.next_request_id }),
            next_request_id: following_request_id(s.next_request_id),
            ..s
        },
        system_screen(s.next_request_id, SystemStatus::Bootloader),
    )
}

/// Hand an automaton decision to the actors: a bootloader request becomes the
/// bootloader screen; anything else is passed on as it is.
pub open spec fn forward_step(s: ControllerState, d: Decision) -> (ControllerState, Effects) {
    if d.bootloader {
        bootloader_step(s)
    } else {
        (s, Effects { hid: d.hid, display: d.display, ..no_effects() })
    }
}

/// Run the automaton on `event` unless something is pending.
pub open spec fn automaton_step(
    s: ControllerState,
    profiles: Seq<Profile>,
    event: ControllerEvent,
) -> (ControllerState, Effects) {
    if s.pending is Some {
        (s, no_effects())
    } else {
        let (index, o) = event_outcome(profiles, s.profile_index, s.phase, s.output, event);
        forward_step(
            ControllerState { profile_index: index, phase: o.phase, output: o.output, ..s },
            o.decision,
        )
    }
}

/// The controller's response to `event` arriving when the clock reads `now_ms`.
pub open spec fn dispatch_step(
    s: ControllerState,
    profiles: Seq<Profile>,
    event: ControllerEvent,
    now_ms: u64,
) -> (ControllerState, Effects) {
    match event {
        ControllerEvent::FatalError(error) => {
            if s.pending matches Some(PendingAction::BootloaderDisplay { .. }) || s.pending matches Some(
                PendingAction::BootloaderHid { .. },
            ) {
                (s, no_effects())
            } else {
                fatal_step(s, error)
            }
        },
        ControllerEvent::DisplayPresented { request_id } => {
            if s.pending == Some(PendingAction::Fatal { request_id }) {
                (s, Effects { halt: true, ..no_effects() })
            } else if s.pending == Some(PendingAction::BootloaderDisplay { request_id }) {
                (
                    ControllerState {
                        pending: Some(
                            PendingAction::BootloaderHid {
                                request_id,
                                deadline_ms: (now_ms + BOOTLOADER_RELEASE_TIMEOUT_MS) as u64,
                            },
                        ),
                        ..s
                    },
                    Effects {
                        hid: Some(HidCommand::ReleaseForBootloader { request_id }),
                        ..no_effects()
                    },
                )
            } else {
                (s, no_effects())
            }
        },
        ControllerEvent::HidReleasedForBootloader { request_id } => {
            if s.pending matches Some(PendingAction::BootloaderHid { request_id: pending, .. })
                && pending == request_id {
                (s, reboot_after(USB_GRACE_MS))
            } else {
                automaton_step(s, profiles, event)
            }
        },
        _ => automaton_step(s, profiles, event),
    }
}

/// The controller state before any profile has been checked.
pub open spec fn fresh_state() -> ControllerState {
    ControllerState {
        pending: None,
        next_request_id: 1,
        profile_index: 0,
        phase: RuntimePhase::Idle,
        output: no_output(),
    }
}

/// Start-up: refuse an empty or invalid profile list with a fatal screen,
/// otherwise release everything and show the first profile.
pub open spec fn start_step(profiles: Seq<Profile>) -> (ControllerState, Effects) {
    if profiles.len() == 0 {
        fatal_step(fresh_state(), FirmwareError::NoProfilesConfigured)
    } else if !all_valid(profiles) {
        fatal_step(fresh_state(), FirmwareError::InvalidProfile)
    } else {
        forward_step(fresh_state(), idle_outcome(profiles[0]).decision)
    }
}

/// The HID queue refused the command of the last effects: during the
/// bootloader hand-over restart anyway, otherwise show a fatal screen.
pub open spec fn hid_rejected_step(s: ControllerState) -> (ControllerState, Effects) {
    if s.pending matches Some(PendingAction::BootloaderHid { .. }) {
        (s, reboot_after(USB_GRACE_MS))
    } else {
        fatal_step(s, FirmwareError::HidCommandQueueFull)
    }
}

/// The HID actor's queue accepted (or refused) the command of `effects`: the
/// frame of `effects` is published only when it was accepted; a refusal drops
/// it and is answered as `hid_rejected_step` says.
pub open spec fn after_hid_step(s: ControllerState, effects: Effects, accepted: bool) -> (
    ControllerState,
    Effects,
) {
    if accepted {
        (s, Effects { display: effects.display, ..no_effects() })
    } else {
        hid_rejected_step(s)
    }
}

/// The clock reads `now_ms` while HID is waited on: restart at once if the
/// release deadline has been reached.
pub open spec fn deadline_effects(s: ControllerState, now_ms: u64) -> Effects {
    if s.pending matches Some(PendingAction::BootloaderHid { deadline_ms, .. }) && now_ms
        >= deadline_ms {
        reboot_after(0)
    } else {
        no_effects()
    }
}

/// The release deadline being waited on, if any.
pub open spec fn pending_deadline(s: ControllerState) -> Option<u64> {
    match s.pending {
        Some(PendingAction::BootloaderHid { deadline_ms, .. }) => Some(deadline_ms),
        _ => None,
    }
}

/// While nothing is pending, the profiles are valid and the automaton is
/// consistent with them.
pub open spec fn state_wf(s: ControllerState, profiles: Seq<Profile>) -> bool {
    s.pending is None ==> all_valid(profiles) && consistent(
        profiles,
        s.profile_index,
        s.phase,
        s.output,
    )
}

/// The controller core: validated profiles, the automaton, and what the
/// controller is waiting on.
pub struct ControllerCore<'a> {
    profiles: &'a [Profile],
    automaton: AutomatonRuntime,
    next_system_request_id: u32,
    pending_action: Option<PendingAction>,
}

impl<'a> ControllerCore<'a> {
    /// The abstract state of this controller.
    pub closed spec fn state(&self) -> ControllerState {
        ControllerState {
            pending: self.pending_action,
            next_request_id: self.next_system_request_id,
            profile_index: self.automaton.active_profile(),
            phase: self.automaton.phase(),
            output: self.automaton.output(),
        }
    }

    /// The profiles this controller walks.
    pub closed spec fn profiles(&self) -> Seq<Profile> {
        self.profiles@
    }

    pub open spec fn wf(&self) -> bool {
        state_wf(self.state(), self.profiles())
    }

    /// Validate `profiles` and take the first decision.
    pub fn start(profiles: &'a [Profile]) -> (r: (Self, Effects))
        ensures
            r.0.profiles() == profiles@,
            r.0.wf(),
            (r.0.state(), r.1) == start_step(profiles@),
    {
        let mut core = ControllerCore {
            profiles,
            automaton: AutomatonRuntime::new(),
            next_system_request_id: 1,
            pending_action: None,
        };
        assert(core.state() == fresh_state());
        if profiles.len() == 0 {
            let e = core.begin_fatal(FirmwareError::NoProfilesConfigured);
            (core, e)
        } else if !all_profiles_valid(profiles) {
            let e = core.begin_fatal(FirmwareError::InvalidProfile);
            (core, e)
        } else {
            let initial = core.automaton.initial_decision(core.profiles);
            let e = core.forward(initial);
            (core, e)
        }
    }

    /// Decide how to answer one event, arriving when the clock reads `now_ms`.
    /// The clock is read only to set the release deadline, which must fit.
    pub fn dispatch(&mut self, event: ControllerEvent, now_ms: u64) -> (e: Effects)
        requires
            old(self).wf(),
            starts_release(old(self).state(), event) ==> now_ms + BOOTLOADER_RELEASE_TIMEOUT_MS
                <= u64::MAX,
        ensures
            final(self).wf(),
            final(self).profiles() == old(self).profiles(),
            (final(self).state(), e) == dispatch_step(
                old(self).state(),
                old(self).profiles(),
                event,
                now_ms,
            ),
    {
        match event {
            ControllerEvent::FatalError(error) => {
                if matches!(
                    self.pending_action,
                    Some(PendingAction::BootloaderDisplay { .. }) | Some(
                        PendingAction::BootloaderHid { .. },
                    )
                ) {
                    return Self::nothing();
                }
                return self.begin_fatal(error);
            },
            ControllerEvent::DisplayPresented { request_id } => {
                match self.pending_action {
                    Some(PendingAction::Fatal { request_id: pending }) => {
                        if request_id == pending {
                            return Effects { halt: true, ..Self::nothing() };
                        }
                    },
                    Some(PendingAction::BootloaderDisplay { request_id: pending }) => {
                        if request_id == pending {
                            self.pending_action = Some(
                                PendingAction::BootloaderHid {
                                    request_id,
                                    deadline_ms: now_ms + BOOTLOADER_RELEASE_TIMEOUT_MS,
                                },
                            );
                            return Effects {
                                hid: Some(HidCommand::ReleaseForBootloader { request_id }),
                                ..Self::nothing()
                            };
                        }
                    },
                    _ => {},
                }
                return Self::nothing();
            },
            ControllerEvent::HidReleasedForBootloader { request_id } => {
                if let Some(PendingAction::BootloaderHid { request_id: pending, .. }) =
                    self.pending_action {
                    if request_id == pending {
                        return Effects { reboot_after_ms: Some(USB_GRACE_MS), ..Self::nothing() };
                    }
                }
            },
            _ => {},
        }
        if self.pending_action.is_some() {
            return Self::nothing();
        }
        proof {
            lemma_event_keeps_consistent(
                self.profiles@,
                self.automaton.active_profile(),
                self.automaton.phase(),
                self.automaton.output(),
                event,
            );
        }
        let decision = self.automaton.handle_event(event, self.profiles);
        self.forward(decision)
    }

    /// The HID queue refused the command of the last effects.
    pub fn hid_queue_full(&mut self) -> (e: Effects)
        requires
            old(self).wf(),
        ensures
            final(self).wf(),
            final(self).profiles() == old(self).profiles(),
            (final(self).state(), e) == hid_rejected_step(old(self).state()),
    {
        if let Some(PendingAction::BootloaderHid { .. }) = self.pending_action {
            return Effects { reboot_after_ms: Some(USB_GRACE_MS), ..Self::nothing() };
        }
        self.begin_fatal(FirmwareError::HidCommandQueueFull)
    }

    /// The HID command of `effects` was offered to the HID queue, which
    /// `accepted` it or not. Returns what is left to carry out: the frame of
    /// `effects` once the command was accepted, or the answer to a full queue.
    pub fn after_hid(&mut self, effects: Effects, accepted: bool) -> (e: Effects)
        requires
            old(self).wf(),
        ensures
            final(self).wf(),
            final(self).profiles() == old(self).profiles(),
            (final(self).state(), e) == after_hid_step(old(self).state(), effects, accepted),
    {
        if accepted {
            Effects { display: effects.display, ..Self::nothing() }
        } else {
            self.hid_queue_full()
        }
    }

    /// The clock reads `now_ms` while a release deadline is armed.
    pub fn release_deadline_elapsed(&self, now_ms: u64) -> (e: Effects)
        ensures
            e == deadline_effects(self.state(), now_ms),
    {
        if let Some(PendingAction::BootloaderHid { deadline_ms, .. }) = self.pending_action {
            if now_ms >= deadline_ms {
                return Effects { reboot_after_ms: Some(0), ..Self::nothing() };
            }
        }
        Self::nothing()
    }

    /// The deadline by which HID must confirm its release, while it is awaited.
    pub fn release_deadline(&self) -> (d: Option<u64>)
        ensures
            d == pending_deadline(self.state()),
    {
        match self.pending_action {
            Some(PendingAction::BootloaderHid { deadline_ms, .. }) => Some(deadline_ms),
            _ => None,
        }
    }

    fn nothing() -> (e: Effects)
        ensures
            e == no_effects(),
    {
        Effects {
            halt: false,
            reboot_after_ms: None,
            hid: None,
            display: None,
        }
    }

    fn forward(&mut self, decision: Decision) -> (e: Effects)
        ensures
            final(self).profiles() == old(self).profiles(),
            final(self).automaton == old(self).automaton,
            (final(self).state(), e) == forward_step(old(self).state(), decision),
    {
        if decision.bootloader {
            return self.begin_bootloader();
        }
        Effects { hid: decision.hid, display: decision.display, ..Self::nothing() }
    }

    fn begin_fatal(&mut self, error: FirmwareError) -> (e: Effects)
        ensures
            final(self).profiles() == old(self).profiles(),
            final(self).automaton == old(self).automaton,
            (final(self).state(), e) == fatal_step(old(self).state(), error),
    {
        if let Some(PendingAction::Fatal { .. }) = self.pending_action {
            return Self::nothing();
        }
        let request_id = self.allocate_system_request_id();
        self.pending_action = Some(PendingAction::Fatal { request_id });
        Effects {
            display: Some(DisplayModel::System { request_id, status: SystemStatus::Fatal(error) }),
            ..Self::nothing()
        }
    }

    fn begin_bootloader(&mut self) -> (e: Effects)
        ensures
            final(self).profiles() == old(self).profiles(),
            final(self).automaton == old(self).automaton,
            (final(self).state(), e) == bootloader_step(old(self).state()),
    {
        let request_id = self.allocate_system_request_id();
        self.pending_action = Some(PendingAction::BootloaderDisplay { request_id });
        Effects {
            display: Some(DisplayModel::System { request_id, status: SystemStatus::Bootloader }),
            ..Self::nothing()
        }
    }

    fn allocate_system_request_id(&mut self) -> (id: u32)
        ensures
            id == old(self).next_system_request_id,
            final(self).next_system_request_id == following_request_id(id),
            final(self).profiles == old(self).profiles,
            final(self).automaton == old(self).automaton,
            final(self).pending_action == old(self).pending_action,
    {
        let request_id = self.next_system_request_id;
        self.next_system_request_id = self.next_system_request_id.wrapping_add(1);
        request_id
    }
}

/// Whether every profile in the list is valid.
fn all_profiles_valid(profiles: &[Profile]) -> (b: bool)
    ensures
        b == all_valid(profiles@),
{
    let mut i: usize = 0;
    while i < profiles.len()
        invariant
            i <= profiles@.len(),
            forall|j: int| 0 <= j < i ==> crate::domain::profile::profile_valid(
                #[trigger] profiles@[j],
            ),
        decreases profiles@.len() - i,
    {
        if !profiles[i].is_valid() {
            return false;
        }
        i = i + 1;
    }
    true
}

} // verus!
