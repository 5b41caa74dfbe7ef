//! Immutable automaton configuration and complete HID snapshots.

use vstd::prelude::*;

verus! {

/// Stable identifiers for profile states.
#[derive(Clone, Copy, Debug, PartialEq, Eq, Structural)]
pub enum StateType {
    Idle,
    Left,
    Right,
}

/// Direction of a button-held transition.
#[derive(Clone, Copy, Debug, PartialEq, Eq, Structural)]
pub enum Direction {
    LeftToRight,
    RightToLeft,
}

/// Up to six simultaneous ordinary keys and a modifier byte.
#[derive(Clone, Copy, Debug, PartialEq, Eq)]
pub struct Keystrokes {
    pub modifiers: u8,
    pub keycodes: [u8; 6],
}

/// The keystrokes with no modifier and no key held.
pub open spec fn no_keystrokes() -> Keystrokes {
    Keystrokes { modifiers: 0, keycodes: [0u8, 0u8, 0u8, 0u8, 0u8, 0u8] }
}

impl Keystrokes {
    /// No modifier and no key held.
    pub fn none() -> (k: Self)
        ensures
            k == no_keystrokes(),
    {
        Keystrokes { modifiers: 0, keycodes: [0u8, 0u8, 0u8, 0u8, 0u8, 0u8] }
    }

    /// One ordinary key, no modifier.
    pub fn one(key: u8) -> (k: Self)
        ensures
            k == (Keystrokes { modifiers: 0, keycodes: [key, 0u8, 0u8, 0u8, 0u8, 0u8] }),
            k.keycodes@ == seq![key, 0u8, 0u8, 0u8, 0u8, 0u8],
    {
        Keystrokes { modifiers: 0, keycodes: [key, 0, 0, 0, 0, 0] }
    }

    /// Two ordinary keys, no modifier.
    pub fn two(first: u8, second: u8) -> (k: Self)
        ensures
            k == (Keystrokes { modifiers: 0, keycodes: [first, second, 0u8, 0u8, 0u8, 0u8] }),
            k.keycodes@ == seq![first, second, 0u8, 0u8, 0u8, 0u8],
    {
        Keystrokes { modifiers: 0, keycodes: [first, second, 0, 0, 0, 0] }
    }

    /// The 8-byte boot keyboard report: modifiers, a reserved zero byte, six keys.
    pub fn report(self) -> (r: [u8; 8])
        ensures
            r@ == seq![self.modifiers, 0u8].add(self.keycodes@),
    {
        let r = [
            self.modifiers,
            0,
            self.keycodes[0],
            self.keycodes[1],
            self.keycodes[2],
            self.keycodes[3],
            self.keycodes[4],
            self.keycodes[5],
        ];
        assert(r@ =~= seq![self.modifiers, 0u8].add(self.keycodes@));
        r
    }
}

/// Complete keyboard and mouse state, never an incremental operation.
#[derive(Clone, Copy, Debug, PartialEq, Eq)]
pub struct HidOutput {
    pub keystrokes: Keystrokes,
    pub mouse_buttons: u8,
}

/// The output that holds nothing: no key, no modifier, no mouse button.
pub open spec fn no_output() -> HidOutput {
    HidOutput { keystrokes: no_keystrokes(), mouse_buttons: 0 }
}

/// Whether `o` holds nothing at all.
pub open spec fn is_released(o: HidOutput) -> bool {
    &&& o.keystrokes.modifiers == 0
    &&& o.keystrokes.keycodes@ == seq![0u8, 0u8, 0u8, 0u8, 0u8, 0u8]
    &&& o.mouse_buttons == 0
}

/// The 5-byte mouse report of an output: buttons, then no movement.
pub open spec fn mouse_report_of(o: HidOutput) -> Seq<u8> {
    seq![o.mouse_buttons, 0u8, 0u8, 0u8, 0u8]
}

/// The 8-byte keyboard report of an output.
pub open spec fn keyboard_report_of(o: HidOutput) -> Seq<u8> {
    seq![o.keystrokes.modifiers, 0u8].add(o.keystrokes.keycodes@)
}

/// An output holds nothing exactly when it is the empty output.
pub proof fn lemma_released_iff_no_output(o: HidOutput)
    ensures
        is_released(o) <==> o == no_output(),
{
    broadcast use vstd::array::group_array_axioms;
    if is_released(o) {
        assert(o.keystrokes.keycodes =~= no_output().keystrokes.keycodes) by {
            assert forall|i: int| 0 <= i < 6 implies o.keystrokes.keycodes[i]
                == no_output().keystrokes.keycodes[i] by {
                assert(o.keystrokes.keycodes@[i] == 0u8);
            }
        }
    }
    if o == no_output() {
        assert(o.keystrokes.keycodes@ =~= seq![0u8, 0u8, 0u8, 0u8, 0u8, 0u8]);
    }
}

impl HidOutput {
    /// Nothing pressed.
    pub fn none() -> (o: Self)
        ensures
            o == no_output(),
            is_released(o),
    {
        let o = HidOutput { keystrokes: Keystrokes::none(), mouse_buttons: 0 };
        assert(o.keystrokes.keycodes@ =~= seq![0u8, 0u8, 0u8, 0u8, 0u8, 0u8]);
        o
    }

    pub fn new(keystrokes: Keystrokes, mouse_buttons: u8) -> (o: Self)
        ensures
            o == (HidOutput { keystrokes, mouse_buttons }),
    {
        HidOutput { keystrokes, mouse_buttons }
    }

    /// Whether nothing is held: the output equals `HidOutput::none()`.
    pub fn is_none(&self) -> (b: bool)
        ensures
            b == is_released(*self),
    {
        let k = &self.keystrokes.keycodes;
        let b = self.keystrokes.modifiers == 0 && k[0] == 0 && k[1] == 0 && k[2] == 0 && k[3] == 0
            && k[4] == 0 && k[5] == 0 && self.mouse_buttons == 0;
        assert(b ==> k@ =~= seq![0u8, 0u8, 0u8, 0u8, 0u8, 0u8]);
        b
    }

    pub fn keyboard_report(self) -> (r: [u8; 8])
        ensures
            r@ == keyboard_report_of(self),
    {
        self.keystrokes.report()
    }

    pub fn mouse_report(self) -> (r: [u8; 5])
        ensures
            r@ == mouse_report_of(self),
    {
        let r = [self.mouse_buttons, 0, 0, 0, 0];
        assert(r@ =~= mouse_report_of(self));
        r
    }
}

/// One complete profile output state.
///
/// For transition slots, `kind` is the stable state entered when the initiating
/// button is released.
#[derive(Clone, Copy, Debug)]
pub struct State {
    pub kind: StateType,
    pub output: HidOutput,
}

impl State {
    pub fn new(kind: StateType, output: HidOutput) -> (s: Self)
        ensures
            s == (State { kind, output }),
    {
        State { kind, output }
    }
}

/// Fixed profile layout used by the automaton.
pub struct Profile {
    pub name: &'static str,
    pub idle: State,
    pub left: State,
    pub right: State,
    pub transition_lr: Option<State>,
    pub transition_rl: Option<State>,
}

/// The slot of `p` that holds stable state `kind`.
pub open spec fn state_slot(p: Profile, kind: StateType) -> State {
    match kind {
        StateType::Idle => p.idle,
        StateType::Left => p.left,
        StateType::Right => p.right,
    }
}

/// An optional transition slot is absent or ends in `destination`.
pub open spec fn transition_ends_in(t: Option<State>, destination: StateType) -> bool {
    match t {
        None => true,
        Some(s) => s.kind == destination,
    }
}

/// Every slot of the profile holds the state it is named for, the idle state
/// releases everything, and each transition ends on the side it moves to.
pub open spec fn profile_valid(p: Profile) -> bool {
    &&& p.idle.kind == StateType::Idle
    &&& p.idle.output == no_output()
    &&& p.left.kind == StateType::Left
    &&& p.right.kind == StateType::Right
    &&& transition_ends_in(p.transition_lr, StateType::Right)
    &&& transition_ends_in(p.transition_rl, StateType::Left)
}

/// A profile is valid exactly when each stable slot holds its own kind, the
/// idle slot releases everything, and each transition slot is absent or ends
/// on the side it moves to. Nothing else about the outputs matters: a side
/// may hold any keys, modifiers or mouse buttons, or none.
pub proof fn lemma_valid_exactly_when_slots_fit(p: Profile)
    ensures
        profile_valid(p) <==> {
            &&& p.idle.kind == StateType::Idle
            &&& p.idle.output == no_output()
            &&& p.left.kind == StateType::Left
            &&& p.right.kind == StateType::Right
            &&& (p.transition_lr is None || p.transition_lr->0.kind == StateType::Right)
            &&& (p.transition_rl is None || p.transition_rl->0.kind == StateType::Left)
        },
{
}

impl Profile {
    pub fn state(&self, kind: StateType) -> (s: &State)
        ensures
            *s == state_slot(*self, kind),
    {
        match kind {
            StateType::Idle => &self.idle,
            StateType::Left => &self.left,
            StateType::Right => &self.right,
        }
    }

    /// Validate fixed state and transition destinations before the controller starts.
    pub fn is_valid(&self) -> (b: bool)
        ensures
            b == profile_valid(*self),
    {
        let lr_ok = match self.transition_lr {
            None => true,
            Some(state) => state.kind == StateType::Right,
        };
        let rl_ok = match self.transition_rl {
            None => true,
            Some(state) => state.kind == StateType::Left,
        };
        let idle_none = self.idle.output.is_none();
        proof {
            lemma_released_iff_no_output(self.idle.output);
        }
        self.idle.kind == StateType::Idle && idle_none && self.left.kind == StateType::Left
            && self.right.kind == StateType::Right && lr_ok && rl_ok
    }
}

} // verus!
