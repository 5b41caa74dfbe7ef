//! Profiles with timed transitions: each side-to-side move may run a
//! transition output for a fixed time before entering its destination.

use vstd::prelude::*;

pub use crate::domain::{modifiers, mouse_buttons};

verus! {

#[derive(Clone, Copy, Debug, PartialEq, Eq, Structural)]
pub enum StateType {
    Left,
    Right,
    Idle,
}

/// The label of a state.
pub open spec fn state_label(value: StateType) -> &'static str {
    match value {
        StateType::Left => "LEFT",
        StateType::Right => "RIGHT",
        StateType::Idle => "IDLE",
    }
}

impl From<StateType> for &'static str {
    fn from(value: StateType) -> (s: Self) {
        match value {
            StateType::Left => "LEFT",
            StateType::Right => "RIGHT",
            StateType::Idle => "IDLE",
        }
    }
}

impl vstd::std_specs::convert::FromSpecImpl<StateType> for &'static str {
    open spec fn obeys_from_spec() -> bool {
        true
    }

    open spec fn from_spec(value: StateType) -> Self {
        state_label(value)
    }
}

/// Up to six ordinary keys plus the modifier byte.
#[derive(Clone, Copy, Debug, PartialEq, Eq)]
pub struct Keystrokes {
    pub modifiers: u8,
    pub keycodes: [u8; 6],
}

impl Keystrokes {
    /// No modifier and no key held.
    pub fn none() -> (k: Self)
        ensures
            k == (Keystrokes { modifiers: 0, keycodes: [0u8, 0u8, 0u8, 0u8, 0u8, 0u8] }),
    {
        Keystrokes { modifiers: 0, keycodes: [0, 0, 0, 0, 0, 0] }
    }

    /// One key, given by its keyboard usage id.
    pub fn one(key: u8) -> (k: Self)
        ensures
            k == (Keystrokes { modifiers: 0, keycodes: [key, 0u8, 0u8, 0u8, 0u8, 0u8] }),
    {
        Keystrokes { modifiers: 0, keycodes: [key, 0, 0, 0, 0, 0] }
    }

    /// Two keys, given by their keyboard usage ids.
    pub fn two(first: u8, second: u8) -> (k: Self)
        ensures
            k == (Keystrokes { modifiers: 0, keycodes: [first, second, 0u8, 0u8, 0u8, 0u8] }),
    {
        Keystrokes { modifiers: 0, keycodes: [first, second, 0, 0, 0, 0] }
    }

    /// Three keys, given by their keyboard usage ids.
    pub fn three(first: u8, second: u8, third: u8) -> (k: Self)
        ensures
            k == (Keystrokes { modifiers: 0, keycodes: [first, second, third, 0u8, 0u8, 0u8] }),
    {
        Keystrokes { modifiers: 0, keycodes: [first, second, third, 0, 0, 0] }
    }

    /// One key, given by its keyboard usage id, with modifier bits.
    pub fn with_modifier(modifier: u8, key: u8) -> (k: Self)
        ensures
            k == (Keystrokes { modifiers: modifier, keycodes: [key, 0u8, 0u8, 0u8, 0u8, 0u8] }),
    {
        Keystrokes { modifiers: modifier, keycodes: [key, 0, 0, 0, 0, 0] }
    }

    pub fn from_raw(modifiers: u8, keycodes: [u8; 6]) -> (k: Self)
        ensures
            k == (Keystrokes { modifiers, keycodes }),
    {
        Keystrokes { modifiers, keycodes }
    }

    /// The 8-byte keyboard report: modifiers, a reserved zero byte, six keys.
    pub fn report(self) -> (r: [u8; 8])
        ensures
            r@ == seq![self.modifiers, 0u8].add(self.keycodes@),
    {
        let r = [
            self.modifiers,
            0,
            self.keycodes[0],
            self.keycodes[1],
            self.keycodes[2],
            self.keycodes[3],
            self.keycodes[4],
            self.keycodes[5],
        ];
        assert(r@ =~= seq![self.modifiers, 0u8].add(self.keycodes@));
        r
    }
}

#[derive(Clone, Copy, Debug, PartialEq, Eq)]
pub struct HidOutput {
    pub keystrokes: Keystrokes,
    pub mouse_buttons: u8,
}

impl HidOutput {
    /// Nothing pressed.
    pub fn none() -> (o: Self)
        ensures
            o == (HidOutput {
                keystrokes: Keystrokes { modifiers: 0, keycodes: [0u8, 0u8, 0u8, 0u8, 0u8, 0u8] },
                mouse_buttons: 0,
            }),
    {
        HidOutput { keystrokes: Keystrokes::none(), mouse_buttons: 0 }
    }

    pub fn new(keystrokes: Keystrokes, mouse_buttons: u8) -> (o: Self)
        ensures
            o == (HidOutput { keystrokes, mouse_buttons }),
    {
        HidOutput { keystrokes, mouse_buttons }
    }

    pub fn keyboard_report(self) -> (r: [u8; 8])
        ensures
            r@ == seq![self.keystrokes.modifiers, 0u8].add(self.keystrokes.keycodes@),
    {
        self.keystrokes.report()
    }

    /// The 5-byte mouse report: buttons, then no movement, wheel or pan.
    pub fn mouse_report(self) -> (r: [u8; 5])
        ensures
            r@ == seq![self.mouse_buttons, 0u8, 0u8, 0u8, 0u8],
    {
        let r = [self.mouse_buttons, 0, 0, 0, 0];
        assert(r@ =~= seq![self.mouse_buttons, 0u8, 0u8, 0u8, 0u8]);
        r
    }
}

#[derive(Clone, Copy, Debug)]
pub struct State {
    pub state_type: StateType,
    pub output: HidOutput,
}

impl State {
    pub fn new(state_type: StateType, output: HidOutput) -> (s: Self)
        ensures
            s == (State { state_type, output }),
    {
        State { state_type, output }
    }
}

#[derive(Clone, Copy, Debug)]
pub struct Transition {
    pub output: HidOutput,
    pub destination: StateType,
    pub duration_ms: u32,
}

impl Transition {
    pub fn new(output: HidOutput, destination: StateType, duration_ms: u32) -> (t: Self)
        ensures
            t == (Transition { output, destination, duration_ms }),
    {
        Transition { output, destination, duration_ms }
    }
}

pub struct Profile {
    pub name: &'static str,
    pub left: State,
    pub right: State,
    pub idle: State,
    pub transition_lr: Option<Transition>,
    pub transition_rl: Option<Transition>,
}

/// Result of asking the automaton to move to another stable state.
#[derive(Clone, Copy, Debug)]
pub enum Move {
    /// The automaton is already in the requested state.
    Stay,
    /// Enter the requested stable state immediately.
    Enter(StateType),
    /// Run the supplied transition, then enter its destination.
    Run(Transition),
}

/// The slot of `p` that holds `state_type`.
pub open spec fn slot(p: Profile, state_type: StateType) -> State {
    match state_type {
        StateType::Left => p.left,
        StateType::Right => p.right,
        StateType::Idle => p.idle,
    }
}

/// How `p` moves from `current` to `target`: staying put, entering directly,
/// or running the configured side-to-side transition.
pub open spec fn planned_move(p: Profile, current: StateType, target: StateType) -> Move {
    if current == target {
        Move::Stay
    } else {
        match (current, target) {
            (_, StateType::Idle) => Move::Enter(StateType::Idle),
            (StateType::Idle, _) => Move::Enter(target),
            (StateType::Left, StateType::Right) => match p.transition_lr {
                Some(transition) => Move::Run(transition),
                None => Move::Enter(StateType::Right),
            },
            (StateType::Right, StateType::Left) => match p.transition_rl {
                Some(transition) => Move::Run(transition),
                None => Move::Enter(StateType::Left),
            },
            _ => Move::Stay,
        }
    }
}

impl Profile {
    pub fn state(&self, state_type: StateType) -> (s: &State)
        ensures
            *s == slot(*self, state_type),
    {
        match state_type {
            StateType::Left => &self.left,
            StateType::Right => &self.right,
            StateType::Idle => &self.idle,
        }
    }

    pub fn move_to(&self, current: StateType, target: StateType) -> (m: Move)
        ensures
            m == planned_move(*self, current, target),
    {
        if current == target {
            return Move::Stay;
        }
        match (current, target) {
            (_, StateType::Idle) => Move::Enter(StateType::Idle),
            (StateType::Idle, StateType::Left) => Move::Enter(StateType::Left),
            (StateType::Idle, StateType::Right) => Move::Enter(StateType::Right),
            (StateType::Left, StateType::Right) => match self.transition_lr {
                Some(transition) => Move::Run(transition),
                None => Move::Enter(StateType::Right),
            },
            (StateType::Right, StateType::Left) => match self.transition_rl {
                Some(transition) => Move::Run(transition),
                None => Move::Enter(StateType::Left),
            },
            _ => Move::Stay,
        }
    }
}

/// A side-to-side move runs that direction's own configured transition,
/// whatever the other direction holds, and enters the other side directly
/// when that direction has none.
pub proof fn lemma_side_moves_use_own_transition(p: Profile)
    ensures
        p.transition_lr matches Some(t) ==> planned_move(p, StateType::Left, StateType::Right)
            == Move::Run(t),
        p.transition_lr is None ==> planned_move(p, StateType::Left, StateType::Right)
            == Move::Enter(StateType::Right),
        p.transition_rl matches Some(t) ==> planned_move(p, StateType::Right, StateType::Left)
            == Move::Run(t),
        p.transition_rl is None ==> planned_move(p, StateType::Right, StateType::Left)
            == Move::Enter(StateType::Left),
{
}

/// Moves are never timed when idle is involved, every distinct target is
/// reached by entering it or by a configured transition, and asking for the
/// current state never moves.
pub proof fn lemma_move_shapes(p: Profile, current: StateType, target: StateType)
    ensures
        current == target ==> planned_move(p, current, target) is Stay,
        current != target ==> !(planned_move(p, current, target) is Stay),
        current != target && (current == StateType::Idle || target == StateType::Idle)
            ==> planned_move(p, current, target) == Move::Enter(target),
        planned_move(p, current, target) matches Move::Run(t) ==> (
        current == StateType::Left && target == StateType::Right && p.transition_lr == Some(t)) || (
        current == StateType::Right && target == StateType::Left && p.transition_rl == Some(t)),
{
}

} // verus!
