//! Standard mouse report button bits.

use vstd::prelude::*;

verus! {

pub const NONE: u8 = 0;

pub const LEFT: u8 = 1;

pub const RIGHT: u8 = 2;

pub const MIDDLE: u8 = 4;

} // verus!
