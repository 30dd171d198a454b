//! Packets that the client sends while it is configured.

use vstd::prelude::*;

verus! {

pub const CLIENT_INFORMATION: u8 = 0x00;

pub const COOKIE_RESPONSE: u8 = 0x01;

pub const PLUGIN_MESSAGE: u8 = 0x02;

pub const ACKNOWLEDGE_FINISH: u8 = 0x03;

pub const KEEP_ALIVE: u8 = 0x04;

pub const PONG: u8 = 0x05;

pub const RESOURCE_PACK_RESPONSE: u8 = 0x06;

pub const KNOWN_PACKS: u8 = 0x07;

/// The highest id of this table; the ids run from zero to it without a gap.
pub const LAST: u8 = 0x07;

} // verus!
