use macropad::profile::{
    mouse_buttons, HidOutput, Keystrokes, Move, Profile, State, StateType, Transition,
};

fn profile(with_transitions: bool) -> Profile {
    let lr = Transition::new(HidOutput::new(Keystrokes::two(26, 7), mouse_buttons::NONE), StateType::Right, 2_000);
    let rl = Transition::new(HidOutput::new(Keystrokes::two(26, 4), mouse_buttons::NONE), StateType::Left, 2_000);
    Profile {
        name: "Eclps/Rse/Cane",
        idle: State::new(StateType::Idle, HidOutput::none()),
        left: State::new(StateType::Left, HidOutput::new(Keystrokes::one(4), mouse_buttons::LEFT)),
        right: State::new(StateType::Right, HidOutput::new(Keystrokes::one(22), mouse_buttons::LEFT)),
        transition_lr: if with_transitions { Some(lr) } else { None },
        transition_rl: if with_transitions { Some(rl) } else { None },
    }
}

#[test]
fn state_labels() {
    let l: &'static str = StateType::Left.into();
    let r: &'static str = StateType::Right.into();
    let i: &'static str = StateType::Idle.into();
    assert_eq!((l, r, i), ("LEFT", "RIGHT", "IDLE"));
}

#[test]
fn keystroke_constructors() {
    assert_eq!(Keystrokes::three(4, 5, 6).keycodes, [4, 5, 6, 0, 0, 0]);
    let k = Keystrokes::with_modifier(2, 4);
    assert_eq!((k.modifiers, k.keycodes), (2, [4, 0, 0, 0, 0, 0]));
    let raw = Keystrokes::from_raw(1, [1, 2, 3, 4, 5, 6]);
    assert_eq!(raw.report(), [1, 0, 1, 2, 3, 4, 5, 6]);
    let out = HidOutput::new(raw, 3);
    assert_eq!(out.keyboard_report(), [1, 0, 1, 2, 3, 4, 5, 6]);
    assert_eq!(out.mouse_report(), [3, 0, 0, 0, 0]);
    assert_eq!(Keystrokes::none().keycodes, [0; 6]);
}

#[test]
fn move_to_same_state_stays() {
    let p = profile(true);
    for s in [StateType::Left, StateType::Right, StateType::Idle] {
        assert!(matches!(p.move_to(s, s), Move::Stay));
    }
}

#[test]
fn moves_involving_idle_are_immediate() {
    let p = profile(true);
    assert!(matches!(p.move_to(StateType::Left, StateType::Idle), Move::Enter(StateType::Idle)));
    assert!(matches!(p.move_to(StateType::Right, StateType::Idle), Move::Enter(StateType::Idle)));
    assert!(matches!(p.move_to(StateType::Idle, StateType::Left), Move::Enter(StateType::Left)));
    assert!(matches!(p.move_to(StateType::Idle, StateType::Right), Move::Enter(StateType::Right)));
}

#[test]
fn side_to_side_moves_run_configured_transitions() {
    let p = profile(true);
    match p.move_to(StateType::Left, StateType::Right) {
        Move::Run(t) => {
            assert_eq!(t.destination, StateType::Right);
            assert_eq!(t.duration_ms, 2_000);
            assert_eq!(t.output.keystrokes.keycodes, [26, 7, 0, 0, 0, 0]);
        }
        other => panic!("unexpected move {:?}", other),
    }
    match p.move_to(StateType::Right, StateType::Left) {
        Move::Run(t) => assert_eq!(t.destination, StateType::Left),
        other => panic!("unexpected move {:?}", other),
    }
    let q = profile(false);
    assert!(matches!(q.move_to(StateType::Left, StateType::Right), Move::Enter(StateType::Right)));
    assert!(matches!(q.move_to(StateType::Right, StateType::Left), Move::Enter(StateType::Left)));
}

#[test]
fn state_returns_named_slot() {
    let p = profile(false);
    assert_eq!(p.state(StateType::Left).state_type, StateType::Left);
    assert_eq!(p.state(StateType::Right).output.mouse_buttons, mouse_buttons::LEFT);
    assert_eq!(p.state(StateType::Idle).state_type, StateType::Idle);
}
