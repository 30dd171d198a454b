//! The one packet that opens a connection.

use vstd::prelude::*;

verus! {

pub const HANDSHAKE: u8 = 0x00;

/// The highest id of this table; the ids run from zero to it without a gap.
pub const LAST: u8 = 0x00;

} // verus!
