use macropad::domain::{keycodes, modifiers, mouse_buttons, HidOutput, Keystrokes, Profile, State, StateType};

fn valid_profile() -> Profile {
    Profile {
        name: "Test",
        idle: State::new(StateType::Idle, HidOutput::none()),
        left: State::new(StateType::Left, HidOutput::new(Keystrokes::one(keycodes::A), mouse_buttons::LEFT)),
        right: State::new(StateType::Right, HidOutput::new(Keystrokes::one(keycodes::D), mouse_buttons::LEFT)),
        transition_lr: Some(State::new(StateType::Right, HidOutput::new(Keystrokes::one(keycodes::W), 0))),
        transition_rl: None,
    }
}

#[test]
fn keystrokes_one_and_two_fill_leading_slots() {
    let one = Keystrokes::one(keycodes::S);
    assert_eq!(one.modifiers, 0);
    assert_eq!(one.keycodes, [22, 0, 0, 0, 0, 0]);
    let two = Keystrokes::two(keycodes::W, keycodes::D);
    assert_eq!(two.keycodes, [26, 7, 0, 0, 0, 0]);
    assert_eq!(Keystrokes::none().keycodes, [0; 6]);
}

#[test]
fn keyboard_report_puts_modifiers_then_reserved_then_keys() {
    let k = Keystrokes { modifiers: modifiers::LEFT_SHIFT | modifiers::RIGHT_GUI, keycodes: [4, 5, 6, 7, 8, 9] };
    assert_eq!(k.report(), [0x82, 0, 4, 5, 6, 7, 8, 9]);
    let out = HidOutput::new(k, mouse_buttons::MIDDLE);
    assert_eq!(out.keyboard_report(), [0x82, 0, 4, 5, 6, 7, 8, 9]);
    assert_eq!(out.mouse_report(), [4, 0, 0, 0, 0]);
}

#[test]
fn none_output_is_released() {
    let none = HidOutput::none();
    assert!(none.is_none());
    assert_eq!(none.keyboard_report(), [0; 8]);
    assert_eq!(none.mouse_report(), [0; 5]);
    assert!(!HidOutput::new(Keystrokes::none(), mouse_buttons::RIGHT).is_none());
    assert!(!HidOutput::new(Keystrokes::one(keycodes::A), 0).is_none());
    let only_modifier = Keystrokes { modifiers: modifiers::LEFT_CTRL, keycodes: [0; 6] };
    assert!(!HidOutput::new(only_modifier, 0).is_none());
    let last_key = Keystrokes { modifiers: 0, keycodes: [0, 0, 0, 0, 0, 1] };
    assert!(!HidOutput::new(last_key, 0).is_none());
}

#[test]
fn profile_state_returns_named_slot() {
    let p = valid_profile();
    assert_eq!(p.state(StateType::Idle).kind, StateType::Idle);
    assert_eq!(p.state(StateType::Left).output.keystrokes.keycodes[0], keycodes::A);
    assert_eq!(p.state(StateType::Right).output.keystrokes.keycodes[0], keycodes::D);
}

#[test]
fn valid_profile_passes_validation() {
    assert!(valid_profile().is_valid());
}

#[test]
fn validation_rejects_each_misplaced_slot() {
    let mut p = valid_profile();
    p.idle.kind = StateType::Left;
    assert!(!p.is_valid());

    let mut p = valid_profile();
    p.idle.output = HidOutput::new(Keystrokes::one(keycodes::A), 0);
    assert!(!p.is_valid());

    let mut p = valid_profile();
    p.left.kind = StateType::Right;
    assert!(!p.is_valid());

    let mut p = valid_profile();
    p.right.kind = StateType::Idle;
    assert!(!p.is_valid());

    let mut p = valid_profile();
    p.transition_lr = Some(State::new(StateType::Left, HidOutput::none()));
    assert!(!p.is_valid());

    let mut p = valid_profile();
    p.transition_rl = Some(State::new(StateType::Right, HidOutput::none()));
    assert!(!p.is_valid());

    let mut p = valid_profile();
    p.transition_rl = Some(State::new(StateType::Left, HidOutput::none()));
    assert!(p.is_valid());
}

#[test]
fn configured_profiles_are_valid_and_ordered() {
    let ps = macropad::profiles::profiles();
    assert_eq!(ps.len(), 3);
    assert!(ps.iter().all(|p| p.is_valid()));
    assert_eq!(ps[0].name, "Eclipse/Rose/Cane");
    assert_eq!(ps[1].name, "Warts/Crops");
    assert_eq!(ps[2].name, "Shrooms");
    assert_eq!(ps[0].right.output.keystrokes.keycodes[0], keycodes::S);
    assert_eq!(ps[0].transition_lr.unwrap().output.mouse_buttons, mouse_buttons::NONE);
    assert!(ps[1].transition_lr.is_none() && ps[1].transition_rl.is_none());
    assert_eq!(ps[2].transition_lr.unwrap().output.keystrokes.keycodes[0], keycodes::S);
    assert!(ps[2].transition_rl.is_none());
}
