//! Verified core of a programmable two-button USB HID controller: immutable
//! profiles, the state automaton that walks them, and the decision logic of
//! the controller, HID, display, timer and button actors.

pub mod domain;
pub mod controller;
pub mod controller_laws;
pub mod display;
pub mod hid;
pub mod timer;
pub mod buttons;
pub mod profiles;
pub mod profile;
