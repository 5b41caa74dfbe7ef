//! Synchronous, allocation-free automaton validation and decisions.

use vstd::prelude::*;

use super::profile::{no_output, profile_valid, state_slot};
use super::{
    ControllerEvent, Direction, DisplayModel, DisplayPhase, HidCommand, HidOutput, Profile, State,
    StateType,
};

verus! {

/// Mutable runtime phase, owned only by the controller task.
#[derive(Clone, Copy, Debug, PartialEq, Eq, Structural)]
pub enum RuntimePhase {
    Idle,
    Stable(StateType),
    Transitioning { direction: Direction, destination: StateType },
}

/// Fixed-size effects returned by pure automaton operations.
#[derive(Clone, Copy, Debug, PartialEq, Eq)]
pub struct Decision {
    pub hid: Option<HidCommand>,
    pub display: Option<DisplayModel>,
    pub bootloader: bool,
}

/// The decision that asks for nothing.
pub open spec fn no_decision() -> Decision {
    Decision { hid: None, display: None, bootloader: false }
}

impl Default for Decision {
    fn default() -> (d: Self)
        ensures
            d == no_decision(),
    {
        Decision { hid: None, display: None, bootloader: false }
    }
}

/// Where one automaton step leads: the phase and output it leaves behind and
/// the effects it asks the other actors to carry out.
pub struct Outcome {
    pub phase: RuntimePhase,
    pub output: HidOutput,
    pub decision: Decision,
}

/// The stable side that a transition in `direction` ends on.
pub open spec fn destination_of(direction: Direction) -> StateType {
    match direction {
        Direction::LeftToRight => StateType::Right,
        Direction::RightToLeft => StateType::Left,
    }
}

/// How the display shows a runtime phase.
pub open spec fn display_phase(phase: RuntimePhase) -> DisplayPhase {
    match phase {
        RuntimePhase::Idle => DisplayPhase::Idle,
        RuntimePhase::Stable(StateType::Idle) => DisplayPhase::Idle,
        RuntimePhase::Stable(state) => DisplayPhase::Stable(state),
        RuntimePhase::Transitioning { direction, .. } => DisplayPhase::Transitioning(direction),
    }
}

/// The application frame for `profile` in `phase` holding `output`.
pub open spec fn application_model(
    profile: Profile,
    phase: RuntimePhase,
    output: HidOutput,
) -> DisplayModel {
    DisplayModel::Application { profile_name: profile.name, phase: display_phase(phase), output }
}

/// Enter `phase` with `output`, sending `hid` and then the matching frame.
pub open spec fn announce(
    profile: Profile,
    phase: RuntimePhase,
    output: HidOutput,
    hid: HidCommand,
) -> Outcome {
    Outcome {
        phase,
        output,
        decision: Decision {
            hid: Some(hid),
            display: Some(application_model(profile, phase, output)),
            bootloader: false,
        },
    }
}

/// Return to idle and release everything.
pub open spec fn idle_outcome(profile: Profile) -> Outcome {
    announce(profile, RuntimePhase::Idle, no_output(), HidCommand::ReleaseAll)
}

/// Enter the stable state `destination` of `profile`.
pub open spec fn stable_outcome(profile: Profile, destination: StateType) -> Outcome {
    if destination == StateType::Idle {
        idle_outcome(profile)
    } else {
        let output = state_slot(profile, destination).output;
        announce(profile, RuntimePhase::Stable(destination), output, HidCommand::SetOutput(output))
    }
}

/// Start the held transition `transition` in `direction`.
pub open spec fn transition_outcome(
    profile: Profile,
    direction: Direction,
    transition: State,
) -> Outcome {
    let phase = RuntimePhase::Transitioning { direction, destination: transition.kind };
    announce(profile, phase, transition.output, HidCommand::SetOutput(transition.output))
}

/// Nothing changes and nothing is sent.
pub open spec fn unchanged(phase: RuntimePhase, output: HidOutput) -> Outcome {
    Outcome { phase, output, decision: no_decision() }
}

/// What pressing the left button does.
pub open spec fn left_press_outcome(
    profile: Profile,
    phase: RuntimePhase,
    output: HidOutput,
) -> Outcome {
    match phase {
        RuntimePhase::Idle => stable_outcome(profile, StateType::Left),
        RuntimePhase::Stable(StateType::Right) => match profile.transition_rl {
            Some(transition) => transition_outcome(profile, Direction::RightToLeft, transition),
            None => stable_outcome(profile, StateType::Left),
        },
        RuntimePhase::Stable(StateType::Idle) => stable_outcome(profile, StateType::Left),
        RuntimePhase::Stable(StateType::Left) => idle_outcome(profile),
        RuntimePhase::Transitioning { .. } => unchanged(phase, output),
    }
}

/// What pressing the right button does.
pub open spec fn right_press_outcome(
    profile: Profile,
    phase: RuntimePhase,
    output: HidOutput,
) -> Outcome {
    match phase {
        RuntimePhase::Idle => stable_outcome(profile, StateType::Right),
        RuntimePhase::Stable(StateType::Left) => match profile.transition_lr {
            Some(transition) => transition_outcome(profile, Direction::LeftToRight, transition),
            None => stable_outcome(profile, StateType::Right),
        },
        RuntimePhase::Stable(StateType::Idle) => stable_outcome(profile, StateType::Right),
        RuntimePhase::Stable(StateType::Right) => idle_outcome(profile),
        RuntimePhase::Transitioning { .. } => unchanged(phase, output),
    }
}

/// What releasing the button that started transitions in `released` does:
/// a matching held transition completes, anything else is ignored.
pub open spec fn release_outcome(
    profile: Profile,
    phase: RuntimePhase,
    output: HidOutput,
    released: Direction,
) -> Outcome {
    match phase {
        RuntimePhase::Transitioning { direction, destination } => if direction == released {
            stable_outcome(profile, destination)
        } else {
            unchanged(phase, output)
        },
        _ => unchanged(phase, output),
    }
}

/// Release everything and ask for the USB bootloader.
pub open spec fn bootloader_outcome(profile: Profile) -> Outcome {
    let idle = idle_outcome(profile);
    Outcome { phase: idle.phase, output: idle.output, decision: Decision { bootloader: true, ..idle.decision } }
}

/// The profile index after switching to the next profile.
pub open spec fn next_index(index: usize, count: int) -> usize {
    ((index + 1) % count) as usize
}

/// The active profile index and the outcome after `event`, for a runtime at
/// `index` in `phase` holding `output`.
pub open spec fn event_outcome(
    profiles: Seq<Profile>,
    index: usize,
    phase: RuntimePhase,
    output: HidOutput,
    event: ControllerEvent,
) -> (usize, Outcome) {
    let profile = profiles[index as int];
    match event {
        ControllerEvent::LeftPressed => (index, left_press_outcome(profile, phase, output)),
        ControllerEvent::LeftReleased => (
            index,
            release_outcome(profile, phase, output, Direction::RightToLeft),
        ),
        ControllerEvent::RightPressed => (index, right_press_outcome(profile, phase, output)),
        ControllerEvent::RightReleased => (
            index,
            release_outcome(profile, phase, output, Direction::LeftToRight),
        ),
        ControllerEvent::NextProfile => {
            let next = next_index(index, profiles.len() as int);
            (next, idle_outcome(profiles[next as int]))
        },
        ControllerEvent::BootloaderRequested => (index, bootloader_outcome(profile)),
        _ => (index, unchanged(phase, output)),
    }
}

/// Every profile of the slice is valid.
pub open spec fn all_valid(profiles: Seq<Profile>) -> bool {
    forall|i: int| 0 <= i < profiles.len() ==> profile_valid(#[trigger] profiles[i])
}

/// The idle slot of a profile is the released idle state.
pub open spec fn idle_slot_valid(profile: Profile) -> bool {
    profile.idle.kind == StateType::Idle && profile.idle.output == no_output()
}

/// The slot for `destination` can be entered as a stable state.
pub open spec fn stable_slot_valid(profile: Profile, destination: StateType) -> bool {
    if destination == StateType::Idle {
        idle_slot_valid(profile)
    } else {
        state_slot(profile, destination).kind == destination
    }
}

/// The slots that pressing the left button in `phase` enters are well placed.
pub open spec fn left_press_ready(profile: Profile, phase: RuntimePhase) -> bool {
    match phase {
        RuntimePhase::Idle | RuntimePhase::Stable(StateType::Idle) => stable_slot_valid(
            profile,
            StateType::Left,
        ),
        RuntimePhase::Stable(StateType::Right) => match profile.transition_rl {
            Some(transition) => transition.kind == StateType::Left,
            None => stable_slot_valid(profile, StateType::Left),
        },
        RuntimePhase::Stable(StateType::Left) => idle_slot_valid(profile),
        RuntimePhase::Transitioning { .. } => true,
    }
}

/// The slots that pressing the right button in `phase` enters are well placed.
pub open spec fn right_press_ready(profile: Profile, phase: RuntimePhase) -> bool {
    match phase {
        RuntimePhase::Idle | RuntimePhase::Stable(StateType::Idle) => stable_slot_valid(
            profile,
            StateType::Right,
        ),
        RuntimePhase::Stable(StateType::Left) => match profile.transition_lr {
            Some(transition) => transition.kind == StateType::Right,
            None => stable_slot_valid(profile, StateType::Right),
        },
        RuntimePhase::Stable(StateType::Right) => idle_slot_valid(profile),
        RuntimePhase::Transitioning { .. } => true,
    }
}

/// The slot that releasing the button of `released` in `phase` enters is
/// well placed.
pub open spec fn release_ready(profile: Profile, phase: RuntimePhase, released: Direction) -> bool {
    match phase {
        RuntimePhase::Transitioning { direction, destination } => direction == released
            ==> stable_slot_valid(profile, destination),
        _ => true,
    }
}

/// Whether `event` is answered from the profiles at all.
pub open spec fn reads_profiles(event: ControllerEvent) -> bool {
    match event {
        ControllerEvent::LeftPressed | ControllerEvent::LeftReleased
        | ControllerEvent::RightPressed | ControllerEvent::RightReleased
        | ControllerEvent::NextProfile | ControllerEvent::BootloaderRequested => true,
        _ => false,
    }
}

/// The profile list can answer `event` for a runtime at `index` in `phase`:
/// the index is in range and every slot the event enters is well placed.
/// Events that do not read the profiles need nothing.
pub open spec fn event_ready(
    profiles: Seq<Profile>,
    index: usize,
    phase: RuntimePhase,
    event: ControllerEvent,
) -> bool {
    reads_profiles(event) ==> {
        &&& index < profiles.len()
        &&& match event {
            ControllerEvent::LeftPressed => left_press_ready(profiles[index as int], phase),
            ControllerEvent::LeftReleased => release_ready(
                profiles[index as int],
                phase,
                Direction::RightToLeft,
            ),
            ControllerEvent::RightPressed => right_press_ready(profiles[index as int], phase),
            ControllerEvent::RightReleased => release_ready(
                profiles[index as int],
                phase,
                Direction::LeftToRight,
            ),
            ControllerEvent::NextProfile => idle_slot_valid(
                profiles[next_index(index, profiles.len() as int) as int],
            ),
            ControllerEvent::BootloaderRequested => idle_slot_valid(profiles[index as int]),
            _ => true,
        }
    }
}

/// Valid profiles can answer every event at any in-range index.
pub proof fn lemma_valid_profiles_are_ready(
    profiles: Seq<Profile>,
    index: usize,
    phase: RuntimePhase,
    event: ControllerEvent,
)
    requires
        index < profiles.len(),
        all_valid(profiles),
    ensures
        event_ready(profiles, index, phase, event),
{
    assert(profile_valid(profiles[index as int]));
    let next = next_index(index, profiles.len() as int);
    assert(profile_valid(profiles[next as int]));
}

/// All mutable application state required to traverse immutable profiles.
pub struct AutomatonRuntime {
    active_profile_index: usize,
    phase: RuntimePhase,
    current_output: HidOutput,
}

impl AutomatonRuntime {
    /// Index of the active profile.
    pub closed spec fn active_profile(&self) -> usize {
        self.active_profile_index
    }

    /// Current runtime phase.
    pub closed spec fn phase(&self) -> RuntimePhase {
        self.phase
    }

    /// The complete HID output currently held.
    pub closed spec fn output(&self) -> HidOutput {
        self.current_output
    }

    /// The runtime, at unchanged profile `index`, now rests where `o` leads.
    pub open spec fn lands(&self, index: usize, o: Outcome) -> bool {
        &&& self.active_profile() == index
        &&& self.phase() == o.phase
        &&& self.output() == o.output
    }

    pub fn new() -> (r: Self)
        ensures
            r.active_profile() == 0,
            r.phase() == RuntimePhase::Idle,
            r.output() == no_output(),
    {
        AutomatonRuntime {
            active_profile_index: 0,
            phase: RuntimePhase::Idle,
            current_output: HidOutput::none(),
        }
    }

    pub fn initial_decision(&mut self, profiles: &[Profile]) -> (d: Decision)
        requires
            old(self).active_profile() < profiles@.len(),
            idle_slot_valid(profiles@[old(self).active_profile() as int]),
        ensures
            final(self).lands(
                old(self).active_profile(),
                idle_outcome(profiles@[old(self).active_profile() as int]),
            ),
            d == idle_outcome(profiles@[old(self).active_profile() as int]).decision,
    {
        self.enter_idle(&profiles[self.active_profile_index])
    }

    pub fn handle_event(&mut self, event: ControllerEvent, profiles: &[Profile]) -> (d: Decision)
        requires
            event_ready(profiles@, old(self).active_profile(), old(self).phase(), event),
        ensures
            ({
                let (index, o) = event_outcome(
                    profiles@,
                    old(self).active_profile(),
                    old(self).phase(),
                    old(self).output(),
                    event,
                );
                final(self).lands(index, o) && d == o.decision
            }),
            old(self).active_profile() < profiles@.len() ==> final(self).active_profile()
                < profiles@.len(),
    {
        match event {
            ControllerEvent::LeftPressed => self.request_left(&profiles[self.active_profile_index]),
            ControllerEvent::LeftReleased => self.release_left(
                &profiles[self.active_profile_index],
            ),
            ControllerEvent::RightPressed => self.request_right(
                &profiles[self.active_profile_index],
            ),
            ControllerEvent::RightReleased => self.release_right(
                &profiles[self.active_profile_index],
            ),
            ControllerEvent::NextProfile => self.switch_profile(profiles),
            ControllerEvent::BootloaderRequested => self.request_bootloader(profiles),
            ControllerEvent::FatalError(_)
            | ControllerEvent::DisplayPresented { .. }
            | ControllerEvent::HidReleasedForBootloader { .. }
            | ControllerEvent::TransitionElapsed { .. } => Decision::default(),
        }
    }

    pub fn request_left(&mut self, profile: &Profile) -> (d: Decision)
        requires
            left_press_ready(*profile, old(self).phase()),
        ensures
            final(self).lands(
                old(self).active_profile(),
                left_press_outcome(*profile, old(self).phase(), old(self).output()),
            ),
            d == left_press_outcome(*profile, old(self).phase(), old(self).output()).decision,
    {
        match self.phase {
            RuntimePhase::Idle => self.enter_stable_state(profile, StateType::Left),
            RuntimePhase::Stable(StateType::Right) => match profile.transition_rl {
                Some(transition) => {
                    self.begin_transition(profile, Direction::RightToLeft, transition)
                },
                None => self.enter_stable_state(profile, StateType::Left),
            },
            RuntimePhase::Stable(StateType::Idle) => {
                self.enter_stable_state(profile, StateType::Left)
            },
            RuntimePhase::Stable(StateType::Left) => self.enter_idle(profile),
            RuntimePhase::Transitioning { .. } => Decision::default(),
        }
    }

    pub fn request_right(&mut self, profile: &Profile) -> (d: Decision)
        requires
            right_press_ready(*profile, old(self).phase()),
        ensures
            final(self).lands(
                old(self).active_profile(),
                right_press_outcome(*profile, old(self).phase(), old(self).output()),
            ),
            d == right_press_outcome(*profile, old(self).phase(), old(self).output()).decision,
    {
        match self.phase {
            RuntimePhase::Idle => self.enter_stable_state(profile, StateType::Right),
            RuntimePhase::Stable(StateType::Left) => match profile.transition_lr {
                Some(transition) => {
                    self.begin_transition(profile, Direction::LeftToRight, transition)
                },
                None => self.enter_stable_state(profile, StateType::Right),
            },
            RuntimePhase::Stable(StateType::Idle) => {
                self.enter_stable_state(profile, StateType::Right)
            },
            RuntimePhase::Stable(StateType::Right) => self.enter_idle(profile),
            RuntimePhase::Transitioning { .. } => Decision::default(),
        }
    }

    pub fn release_left(&mut self, profile: &Profile) -> (d: Decision)
        requires
            release_ready(*profile, old(self).phase(), Direction::RightToLeft),
        ensures
            final(self).lands(
                old(self).active_profile(),
                release_outcome(
                    *profile,
                    old(self).phase(),
                    old(self).output(),
                    Direction::RightToLeft,
                ),
            ),
            d == release_outcome(
                *profile,
                old(self).phase(),
                old(self).output(),
                Direction::RightToLeft,
            ).decision,
    {
        self.complete_transition(Direction::RightToLeft, profile)
    }

    pub fn release_right(&mut self, profile: &Profile) -> (d: Decision)
        requires
            release_ready(*profile, old(self).phase(), Direction::LeftToRight),
        ensures
            final(self).lands(
                old(self).active_profile(),
                release_outcome(
                    *profile,
                    old(self).phase(),
                    old(self).output(),
                    Direction::LeftToRight,
                ),
            ),
            d == release_outcome(
                *profile,
                old(self).phase(),
                old(self).output(),
                Direction::LeftToRight,
            ).decision,
    {
        self.complete_transition(Direction::LeftToRight, profile)
    }

    pub fn enter_idle(&mut self, profile: &Profile) -> (d: Decision)
        requires
            idle_slot_valid(*profile),
        ensures
            final(self).lands(old(self).active_profile(), idle_outcome(*profile)),
            d == idle_outcome(*profile).decision,
    {
        self.phase = RuntimePhase::Idle;
        self.current_output = HidOutput::none();
        Decision {
            hid: Some(HidCommand::ReleaseAll),
            display: Some(self.display_model(profile)),
            bootloader: false,
        }
    }

    pub fn enter_stable_state(&mut self, profile: &Profile, destination: StateType) -> (d: Decision)
        requires
            stable_slot_valid(*profile, destination),
        ensures
            final(self).lands(old(self).active_profile(), stable_outcome(*profile, destination)),
            d == stable_outcome(*profile, destination).decision,
    {
        if destination == StateType::Idle {
            return self.enter_idle(profile);
        }
        let state = profile.state(destination);
        self.phase = RuntimePhase::Stable(destination);
        self.current_output = state.output;
        Decision {
            hid: Some(HidCommand::SetOutput(state.output)),
            display: Some(self.display_model(profile)),
            bootloader: false,
        }
    }

    pub fn begin_transition(
        &mut self,
        profile: &Profile,
        direction: Direction,
        transition: State,
    ) -> (d: Decision)
        requires
            transition.kind == destination_of(direction),
        ensures
            final(self).lands(
                old(self).active_profile(),
                transition_outcome(*profile, direction, transition),
            ),
            d == transition_outcome(*profile, direction, transition).decision,
    {
        self.phase = RuntimePhase::Transitioning { direction, destination: transition.kind };
        self.current_output = transition.output;
        Decision {
            hid: Some(HidCommand::SetOutput(transition.output)),
            display: Some(self.display_model(profile)),
            bootloader: false,
        }
    }

    pub fn complete_transition(&mut self, released_direction: Direction, profile: &Profile) -> (d:
        Decision)
        requires
            release_ready(*profile, old(self).phase(), released_direction),
        ensures
            final(self).lands(
                old(self).active_profile(),
                release_outcome(*profile, old(self).phase(), old(self).output(), released_direction),
            ),
            d == release_outcome(
                *profile,
                old(self).phase(),
                old(self).output(),
                released_direction,
            ).decision,
    {
        match self.phase {
            RuntimePhase::Transitioning { direction, destination } => {
                if direction == released_direction {
                    self.enter_stable_state(profile, destination)
                } else {
                    Decision::default()
                }
            },
            _ => Decision::default(),
        }
    }

    pub fn switch_profile(&mut self, profiles: &[Profile]) -> (d: Decision)
        requires
            old(self).active_profile() < profiles@.len(),
            idle_slot_valid(
                profiles@[next_index(old(self).active_profile(), profiles@.len() as int) as int],
            ),
        ensures
            ({
                let next = next_index(old(self).active_profile(), profiles@.len() as int);
                &&& final(self).lands(next, idle_outcome(profiles@[next as int]))
                &&& d == idle_outcome(profiles@[next as int]).decision
                &&& next < profiles@.len()
            }),
    {
        self.cancel_transition();
        let count = profiles.len();
        self.active_profile_index = (self.active_profile_index + 1) % count;
        self.enter_idle(&profiles[self.active_profile_index])
    }

    /// Abandon any held transition; the output stays as it is.
    pub fn cancel_transition(&mut self)
        ensures
            final(self).active_profile() == old(self).active_profile(),
            final(self).phase() == RuntimePhase::Idle,
            final(self).output() == old(self).output(),
    {
        self.phase = RuntimePhase::Idle;
    }

    pub fn request_bootloader(&mut self, profiles: &[Profile]) -> (d: Decision)
        requires
            old(self).active_profile() < profiles@.len(),
            idle_slot_valid(profiles@[old(self).active_profile() as int]),
        ensures
            final(self).lands(
                old(self).active_profile(),
                bootloader_outcome(profiles@[old(self).active_profile() as int]),
            ),
            d == bootloader_outcome(profiles@[old(self).active_profile() as int]).decision,
    {
        self.cancel_transition();
        let profile = &profiles[self.active_profile_index];
        let mut decision = self.enter_idle(profile);
        decision.bootloader = true;
        decision
    }

    fn display_model(&self, profile: &Profile) -> (m: DisplayModel)
        ensures
            m == application_model(*profile, self.phase(), self.output()),
    {
        let phase = match self.phase {
            RuntimePhase::Idle | RuntimePhase::Stable(StateType::Idle) => DisplayPhase::Idle,
            RuntimePhase::Stable(state) => DisplayPhase::Stable(state),
            RuntimePhase::Transitioning { direction, .. } => DisplayPhase::Transitioning(direction),
        };
        DisplayModel::Application {
            profile_name: profile.name,
            phase,
            output: self.current_output,
        }
    }
}

} // verus!
