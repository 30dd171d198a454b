//! Packets that the server sends while a status query is answered.

use vstd::prelude::*;

verus! {

pub const RESPONSE: u8 = 0x00;

pub const PONG_RESPONSE: u8 = 0x01;

/// The highest id of this table; the ids run from zero to it without a gap.
pub const LAST: u8 = 0x01;

} // verus!
