//! Hardware-independent profiles, events, commands, and automaton decisions.

pub mod automaton;
pub mod automaton_laws;
pub mod command;
pub mod display_model;
pub mod event;
pub mod keycodes;
pub mod modifiers;
pub mod mouse_buttons;
pub mod profile;
pub mod system;

pub use automaton::{AutomatonRuntime, Decision, RuntimePhase};
pub use command::{HidCommand, TimerCommand};
pub use display_model::{DisplayModel, DisplayPhase};
pub use event::ControllerEvent;
pub use profile::{Direction, HidOutput, Keystrokes, Profile, State, StateType};
pub use system::{FirmwareError, SystemStatus};
