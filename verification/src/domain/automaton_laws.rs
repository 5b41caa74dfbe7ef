//! Properties that hold of every automaton step and of sequences of steps.

use vstd::prelude::*;

use super::automaton::{
    display_phase,
    all_valid, destination_of, event_outcome, idle_outcome, left_press_outcome, next_index,
    release_outcome, right_press_outcome, stable_outcome, unchanged, Outcome, RuntimePhase,
};
use super::profile::{no_output, profile_valid, state_slot};
use super::{ControllerEvent, Direction, DisplayModel, HidCommand, HidOutput, Profile, State, StateType};

verus! {

/// The complete output the HID actor holds after carrying out `command`.
pub open spec fn commanded_output(command: HidCommand) -> HidOutput {
    match command {
        HidCommand::SetOutput(output) => output,
        HidCommand::ReleaseAll => no_output(),
        HidCommand::ReleaseForBootloader { .. } => no_output(),
    }
}

/// Whatever an outcome sends to the HID actor and the display describes the
/// output the runtime holds afterwards.
pub open spec fn mirrors_output(o: Outcome) -> bool {
    &&& (o.decision.hid matches Some(command) ==> commanded_output(command) == o.output)
    &&& (o.decision.display matches Some(DisplayModel::Application { output, .. }) ==> output
        == o.output)
}

/// The runtime at profile `index` in `phase` holds exactly the output that the
/// active profile defines for that phase, and never rests in `Stable(Idle)`.
pub open spec fn consistent(
    profiles: Seq<Profile>,
    index: usize,
    phase: RuntimePhase,
    output: HidOutput,
) -> bool {
    &&& index < profiles.len()
    &&& match phase {
        RuntimePhase::Idle => output == no_output(),
        RuntimePhase::Stable(state) => state != StateType::Idle && output == state_slot(
            profiles[index as int],
            state,
        ).output,
        RuntimePhase::Transitioning { direction, destination } => {
            let slot = match direction {
                Direction::LeftToRight => profiles[index as int].transition_lr,
                Direction::RightToLeft => profiles[index as int].transition_rl,
            };
            &&& destination == destination_of(direction)
            &&& slot == Some(State { kind: destination, output })
        },
    }
}

/// Every HID command and every application frame that the automaton emits
/// describes the complete output it holds afterwards: the HID actor and the
/// display never disagree with the runtime.
pub proof fn lemma_decisions_mirror_output(
    profiles: Seq<Profile>,
    index: usize,
    phase: RuntimePhase,
    output: HidOutput,
    event: ControllerEvent,
)
    requires
        index < profiles.len(),
        all_valid(profiles),
    ensures
        mirrors_output(event_outcome(profiles, index, phase, output, event).1),
{
}

/// A fresh runtime (profile 0, idle, nothing held) is consistent with any
/// non-empty profile list.
pub proof fn lemma_initial_runtime_consistent(profiles: Seq<Profile>)
    requires
        profiles.len() > 0,
    ensures
        consistent(profiles, 0, RuntimePhase::Idle, no_output()),
{
}

/// Every event keeps the runtime consistent with valid profiles: the held
/// output is always the one the active profile defines for the current phase.
pub proof fn lemma_event_keeps_consistent(
    profiles: Seq<Profile>,
    index: usize,
    phase: RuntimePhase,
    output: HidOutput,
    event: ControllerEvent,
)
    requires
        all_valid(profiles),
        consistent(profiles, index, phase, output),
    ensures
        ({
            let (next, o) = event_outcome(profiles, index, phase, output, event);
            consistent(profiles, next, o.phase, o.output)
        }),
{
    let profile = profiles[index as int];
    assert(profile_valid(profile));
    if event is NextProfile {
        let next = next_index(index, profiles.len() as int);
        assert(profile_valid(profiles[next as int]));
    }
}

/// Holding a side button while the other side is active runs the configured
/// transition; releasing that button enters the destination side and sends
/// its complete output, while releasing the other button changes nothing.
pub proof fn lemma_held_transition_completes(profile: Profile, output: HidOutput)
    requires
        profile_valid(profile),
    ensures
        profile.transition_rl is Some ==> {
            let held = left_press_outcome(profile, RuntimePhase::Stable(StateType::Right), output);
            let done = release_outcome(profile, held.phase, held.output, Direction::RightToLeft);
            let other = release_outcome(profile, held.phase, held.output, Direction::LeftToRight);
            &&& held.phase == RuntimePhase::Transitioning {
                direction: Direction::RightToLeft,
                destination: StateType::Left,
            }
            &&& done.phase == RuntimePhase::Stable(StateType::Left)
            &&& done.output == profile.left.output
            &&& done.decision.hid == Some(HidCommand::SetOutput(profile.left.output))
            &&& other == unchanged(held.phase, held.output)
        },
        profile.transition_lr is Some ==> {
            let held = right_press_outcome(profile, RuntimePhase::Stable(StateType::Left), output);
            let done = release_outcome(profile, held.phase, held.output, Direction::LeftToRight);
            let other = release_outcome(profile, held.phase, held.output, Direction::RightToLeft);
            &&& held.phase == RuntimePhase::Transitioning {
                direction: Direction::LeftToRight,
                destination: StateType::Right,
            }
            &&& done.phase == RuntimePhase::Stable(StateType::Right)
            &&& done.output == profile.right.output
            &&& done.decision.hid == Some(HidCommand::SetOutput(profile.right.output))
            &&& other == unchanged(held.phase, held.output)
        },
{
}

/// Without a configured transition, pressing the opposite side switches sides
/// at once.
pub proof fn lemma_direct_switch_without_transition(profile: Profile, output: HidOutput)
    requires
        profile_valid(profile),
    ensures
        profile.transition_rl is None ==> left_press_outcome(
            profile,
            RuntimePhase::Stable(StateType::Right),
            output,
        ) == stable_outcome(profile, StateType::Left),
        profile.transition_lr is None ==> right_press_outcome(
            profile,
            RuntimePhase::Stable(StateType::Left),
            output,
        ) == stable_outcome(profile, StateType::Right),
{
}

/// Pressing the same side button twice from idle toggles that side on and
/// back off: the runtime returns to idle and releases everything.
pub proof fn lemma_press_twice_returns_to_idle(profile: Profile, output: HidOutput)
    requires
        profile_valid(profile),
    ensures
        ({
            let once = left_press_outcome(profile, RuntimePhase::Idle, output);
            left_press_outcome(profile, once.phase, once.output) == idle_outcome(profile)
        }),
        ({
            let once = right_press_outcome(profile, RuntimePhase::Idle, output);
            right_press_outcome(profile, once.phase, once.output) == idle_outcome(profile)
        }),
{
}

/// The profile index after `k` profile switches among `count` profiles.
pub open spec fn index_after_switches(count: int, index: usize, k: nat) -> usize
    decreases k,
{
    if k == 0 {
        index
    } else {
        next_index(index_after_switches(count, index, (k - 1) as nat), count)
    }
}

/// Switching profiles walks the list cyclically: after `k` switches the
/// active profile is `(index + k) % count`.
pub proof fn lemma_switches_walk_cyclically(count: int, index: usize, k: nat)
    requires
        0 <= index < count <= usize::MAX,
    ensures
        index_after_switches(count, index, k) == (index + k) % count,
    decreases k,
{
    if k == 0 {
        vstd::arithmetic::div_mod::lemma_small_mod(index as nat, count as nat);
    } else {
        lemma_switches_walk_cyclically(count, index, (k - 1) as nat);
        let prev = index + k - 1;
        vstd::arithmetic::div_mod::lemma_add_mod_noop_right(1, prev, count);
        vstd::arithmetic::div_mod::lemma_mod_bound(prev, count);
    }
}

/// Pressing the profile button once per configured profile returns to the
/// profile that was active before.
pub proof fn lemma_full_cycle_returns(profiles: Seq<Profile>, index: usize)
    requires
        index < profiles.len() <= usize::MAX,
    ensures
        index_after_switches(profiles.len() as int, index, profiles.len()) == index,
{
    lemma_switches_walk_cyclically(profiles.len() as int, index, profiles.len());
    vstd::arithmetic::div_mod::lemma_mod_add_multiples_vanish(index as int, profiles.len() as int);
    vstd::arithmetic::div_mod::lemma_small_mod(index as nat, profiles.len());
}

/// A requested bootloader release always leaves the runtime idle with
/// everything released, and no other event asks for the bootloader.
pub proof fn lemma_only_bootloader_request_asks_for_bootloader(
    profiles: Seq<Profile>,
    index: usize,
    phase: RuntimePhase,
    output: HidOutput,
    event: ControllerEvent,
)
    requires
        index < profiles.len(),
    ensures
        ({
            let (next, o) = event_outcome(profiles, index, phase, output, event);
            &&& o.decision.bootloader <==> event is BootloaderRequested
            &&& event is BootloaderRequested ==> {
                &&& next == index
                &&& o.phase == RuntimePhase::Idle
                &&& o.output == no_output()
                &&& o.decision.hid == Some(HidCommand::ReleaseAll)
            }
        }),
{
}

/// While a transition is held, neither side button press changes anything.
pub proof fn lemma_presses_ignored_while_transitioning(
    profile: Profile,
    direction: Direction,
    destination: StateType,
    output: HidOutput,
)
    ensures
        ({
            let phase = RuntimePhase::Transitioning { direction, destination };
            &&& left_press_outcome(profile, phase, output) == unchanged(phase, output)
            &&& right_press_outcome(profile, phase, output) == unchanged(phase, output)
        }),
{
}

/// Every step that moves the runtime (to another phase, another output or
/// another profile) tells both actors: HID gets the complete new output (a
/// full release when the runtime goes idle, the new output otherwise) and the
/// display gets the frame of the new profile, phase and output.
pub proof fn lemma_every_move_is_announced(
    profiles: Seq<Profile>,
    index: usize,
    phase: RuntimePhase,
    output: HidOutput,
    event: ControllerEvent,
)
    requires
        index < profiles.len(),
    ensures
        ({
            let (next, o) = event_outcome(profiles, index, phase, output, event);
            (o.phase != phase || o.output != output || next != index) ==> {
                &&& o.decision.hid == Some(
                    if o.phase == RuntimePhase::Idle {
                        HidCommand::ReleaseAll
                    } else {
                        HidCommand::SetOutput(o.output)
                    },
                )
                &&& o.decision.display == Some(
                    DisplayModel::Application {
                        profile_name: profiles[next as int].name,
                        phase: display_phase(o.phase),
                        output: o.output,
                    },
                )
            }
        }),
{
}

/// Where each button press leads from each stable phase of a valid profile:
/// from idle a side is entered with that side's output; pressing the active
/// side again goes idle and releases everything; pressing the other side
/// runs its configured transition, or enters that side directly when none is
/// configured.
pub proof fn lemma_press_targets(profile: Profile, output: HidOutput)
    requires
        profile_valid(profile),
    ensures
        ({
            let o = left_press_outcome(profile, RuntimePhase::Idle, output);
            &&& o.phase == RuntimePhase::Stable(StateType::Left)
            &&& o.output == profile.left.output
            &&& o.decision.hid == Some(HidCommand::SetOutput(profile.left.output))
        }),
        ({
            let o = right_press_outcome(profile, RuntimePhase::Idle, output);
            &&& o.phase == RuntimePhase::Stable(StateType::Right)
            &&& o.output == profile.right.output
            &&& o.decision.hid == Some(HidCommand::SetOutput(profile.right.output))
        }),
        ({
            let o = left_press_outcome(profile, RuntimePhase::Stable(StateType::Left), output);
            &&& o.phase == RuntimePhase::Idle
            &&& o.output == no_output()
            &&& o.decision.hid == Some(HidCommand::ReleaseAll)
        }),
        ({
            let o = right_press_outcome(profile, RuntimePhase::Stable(StateType::Right), output);
            &&& o.phase == RuntimePhase::Idle
            &&& o.output == no_output()
            &&& o.decision.hid == Some(HidCommand::ReleaseAll)
        }),
        ({
            let o = right_press_outcome(profile, RuntimePhase::Stable(StateType::Left), output);
            &&& profile.transition_lr matches Some(t) ==> o.phase == (RuntimePhase::Transitioning {
                direction: Direction::LeftToRight,
                destination: StateType::Right,
            }) && o.output == t.output && o.decision.hid == Some(HidCommand::SetOutput(t.output))
            &&& profile.transition_lr is None ==> o.phase == RuntimePhase::Stable(StateType::Right)
                && o.output == profile.right.output && o.decision.hid == Some(
                HidCommand::SetOutput(profile.right.output),
            )
        }),
        ({
            let o = left_press_outcome(profile, RuntimePhase::Stable(StateType::Right), output);
            &&& profile.transition_rl matches Some(t) ==> o.phase == (RuntimePhase::Transitioning {
                direction: Direction::RightToLeft,
                destination: StateType::Left,
            }) && o.output == t.output && o.decision.hid == Some(HidCommand::SetOutput(t.output))
            &&& profile.transition_rl is None ==> o.phase == RuntimePhase::Stable(StateType::Left)
                && o.output == profile.left.output && o.decision.hid == Some(
                HidCommand::SetOutput(profile.left.output),
            )
        }),
{
}

} // verus!
