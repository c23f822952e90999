//! Named ASCII codes for the bytes the note grammar speaks of.

use vstd::prelude::*;

verus! {

pub const UPPER_A: u8 = 65;

pub const UPPER_B: u8 = 66;

pub const UPPER_C: u8 = 67;

pub const UPPER_D: u8 = 68;

pub const UPPER_E: u8 = 69;

pub const UPPER_F: u8 = 70;

pub const UPPER_G: u8 = 71;

pub const LOWER_A: u8 = 97;

pub const LOWER_B: u8 = 98;

pub const LOWER_C: u8 = 99;

pub const LOWER_D: u8 = 100;

pub const LOWER_E: u8 = 101;

pub const LOWER_F: u8 = 102;

pub const LOWER_G: u8 = 103;

pub const LOWER_M: u8 = 109;

pub const LOWER_P: u8 = 112;

pub const HASH: u8 = 35;

pub const COLON: u8 = 58;

pub const DOT: u8 = 46;

pub const DIGIT_ZERO: u8 = 48;

pub const DIGIT_NINE: u8 = 57;

} // verus!
