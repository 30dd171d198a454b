//! Packets that the server sends while a player logs in.

use vstd::prelude::*;

verus! {

pub const DISCONNECT: u8 = 0x00;

pub const ENCRYPTION_REQUEST: u8 = 0x01;

pub const SUCCESS: u8 = 0x02;

pub const SET_COMPRESSION: u8 = 0x03;

pub const PLUGIN_REQUEST: u8 = 0x04;

pub const COOKIE_REQUEST: u8 = 0x05;

/// The highest id of this table; the ids run from zero to it without a gap.
pub const LAST: u8 = 0x05;

} // verus!
