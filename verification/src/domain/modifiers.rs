//! Modifier bits in a standard keyboard report.

use vstd::prelude::*;

verus! {

pub const LEFT_CTRL: u8 = 1;

pub const LEFT_SHIFT: u8 = 2;

pub const LEFT_ALT: u8 = 4;

pub const LEFT_GUI: u8 = 8;

pub const RIGHT_CTRL: u8 = 16;

pub const RIGHT_SHIFT: u8 = 32;

pub const RIGHT_ALT: u8 = 64;

pub const RIGHT_GUI: u8 = 128;

} // verus!
