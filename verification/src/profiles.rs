//! The immutable profile configuration. Mutable runtime state lives only in
//! the controller.

use vstd::prelude::*;

use crate::domain::automaton::all_valid;
use crate::domain::profile::profile_valid;
use crate::domain::{keycodes, mouse_buttons, HidOutput, Keystrokes, Profile, State, StateType};

verus! {

/// One ordinary key together with the given mouse buttons.
pub open spec fn key_output(key: u8, buttons: u8) -> HidOutput {
    HidOutput {
        keystrokes: Keystrokes { modifiers: 0, keycodes: [key, 0u8, 0u8, 0u8, 0u8, 0u8] },
        mouse_buttons: buttons,
    }
}

/// A profile named `name` whose stable and transition outputs are the given ones.
pub open spec fn laid_out(
    p: Profile,
    left: HidOutput,
    right: HidOutput,
    lr: Option<HidOutput>,
    rl: Option<HidOutput>,
) -> bool {
    &&& profile_valid(p)
    &&& p.left.output == left
    &&& p.right.output == right
    &&& match lr {
        Some(o) => p.transition_lr == Some(State { kind: StateType::Right, output: o }),
        None => p.transition_lr is None,
    }
    &&& match rl {
        Some(o) => p.transition_rl == Some(State { kind: StateType::Left, output: o }),
        None => p.transition_rl is None,
    }
}

/// Moonflower, Sunflower, Wild Rose, Sugar Cane.
fn eclipse_rose_cane() -> (p: Profile)
    ensures
        p.name@ == "Eclipse/Rose/Cane"@,
        laid_out(
            p,
            key_output(keycodes::A, mouse_buttons::LEFT),
            key_output(keycodes::S, mouse_buttons::LEFT),
            Some(key_output(keycodes::W, mouse_buttons::NONE)),
            Some(key_output(keycodes::D, mouse_buttons::NONE)),
        ),
{
    Profile {
        name: "Eclipse/Rose/Cane",
        idle: State::new(StateType::Idle, HidOutput::none()),
        left: State::new(
            StateType::Left,
            HidOutput::new(Keystrokes::one(keycodes::A), mouse_buttons::LEFT),
        ),
        right: State::new(
            StateType::Right,
            HidOutput::new(Keystrokes::one(keycodes::S), mouse_buttons::LEFT),
        ),
        transition_lr: Some(
            State::new(
                StateType::Right,
                HidOutput::new(Keystrokes::one(keycodes::W), mouse_buttons::NONE),
            ),
        ),
        transition_rl: Some(
            State::new(
                StateType::Left,
                HidOutput::new(Keystrokes::one(keycodes::D), mouse_buttons::NONE),
            ),
        ),
    }
}

/// Nether Wart, Wheat, Potato, Carrot.
fn warts_and_crops() -> (p: Profile)
    ensures
        p.name@ == "Warts/Crops"@,
        laid_out(
            p,
            key_output(keycodes::A, mouse_buttons::LEFT),
            key_output(keycodes::D, mouse_buttons::LEFT),
            None,
            None,
        ),
{
    Profile {
        name: "Warts/Crops",
        idle: State::new(StateType::Idle, HidOutput::none()),
        left: State::new(
            StateType::Left,
            HidOutput::new(Keystrokes::one(keycodes::A), mouse_buttons::LEFT),
        ),
        right: State::new(
            StateType::Right,
            HidOutput::new(Keystrokes::one(keycodes::D), mouse_buttons::LEFT),
        ),
        transition_lr: None,
        transition_rl: None,
    }
}

/// Mushroom.
fn mushroom() -> (p: Profile)
    ensures
        p.name@ == "Shrooms"@,
        laid_out(
            p,
            key_output(keycodes::A, mouse_buttons::LEFT),
            key_output(keycodes::D, mouse_buttons::LEFT),
            Some(key_output(keycodes::S, mouse_buttons::LEFT)),
            None,
        ),
{
    Profile {
        name: "Shrooms",
        idle: State::new(StateType::Idle, HidOutput::none()),
        left: State::new(
            StateType::Left,
            HidOutput::new(Keystrokes::one(keycodes::A), mouse_buttons::LEFT),
        ),
        right: State::new(
            StateType::Right,
            HidOutput::new(Keystrokes::one(keycodes::D), mouse_buttons::LEFT),
        ),
        transition_lr: Some(
            State::new(
                StateType::Right,
                HidOutput::new(Keystrokes::one(keycodes::S), mouse_buttons::LEFT),
            ),
        ),
        transition_rl: None,
    }
}

/// The configured profiles, in the order the profile button walks them.
/// Every one of them passes the start-up validation.
pub fn profiles() -> (ps: [Profile; 3])
    ensures
        all_valid(ps@),
        ps@[0].name@ == "Eclipse/Rose/Cane"@,
        laid_out(
            ps@[0],
            key_output(keycodes::A, mouse_buttons::LEFT),
            key_output(keycodes::S, mouse_buttons::LEFT),
            Some(key_output(keycodes::W, mouse_buttons::NONE)),
            Some(key_output(keycodes::D, mouse_buttons::NONE)),
        ),
        ps@[1].name@ == "Warts/Crops"@,
        laid_out(
            ps@[1],
            key_output(keycodes::A, mouse_buttons::LEFT),
            key_output(keycodes::D, mouse_buttons::LEFT),
            None,
            None,
        ),
        ps@[2].name@ == "Shrooms"@,
        laid_out(
            ps@[2],
            key_output(keycodes::A, mouse_buttons::LEFT),
            key_output(keycodes::D, mouse_buttons::LEFT),
            Some(key_output(keycodes::S, mouse_buttons::LEFT)),
            None,
        ),
{
    let ps = [eclipse_rose_cane(), warts_and_crops(), mushroom()];
    assert(ps@.len() == 3);
    ps
}

} // verus!
