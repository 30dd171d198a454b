//! Packets that the client sends while a player logs in.

use vstd::prelude::*;

verus! {

pub const START: u8 = 0x00;

pub const ENCRYPTION_RESPONSE: u8 = 0x01;

pub const PLUGIN_RESPONSE: u8 = 0x02;

pub const ACKNOWLEDGED: u8 = 0x03;

pub const COOKIE_RESPONSE: u8 = 0x04;

/// The highest id of this table; the ids run from zero to it without a gap.
pub const LAST: u8 = 0x04;

} // verus!
