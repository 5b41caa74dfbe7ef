//! USB HID keyboard usage IDs used by the configured profiles.

use vstd::prelude::*;

verus! {

pub const A: u8 = 4;

pub const D: u8 = 7;

pub const S: u8 = 22;

pub const W: u8 = 26;

} // verus!
