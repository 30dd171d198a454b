//! Packets that the server sends while the client is configured.

use vstd::prelude::*;

verus! {

pub const COOKIE_REQUEST: u8 = 0x00;

pub const PLUGIN_MESSAGE: u8 = 0x01;

pub const DISCONNECT: u8 = 0x02;

pub const FINISH: u8 = 0x03;

pub const KEEP_ALIVE: u8 = 0x04;

pub const PING: u8 = 0x05;

pub const RESET_CHAT: u8 = 0x06;

pub const REGISTRY_DATA: u8 = 0x07;

pub const REMOVE_RESOURCE_PACK: u8 = 0x08;

pub const ADD_RESOURCE_PACK: u8 = 0x09;

pub const STORE_COOKIE: u8 = 0x0A;

pub const TRANSFER: u8 = 0x0B;

pub const FEATURE_FLAGS: u8 = 0x0C;

pub const UPDATE_TAGS: u8 = 0x0D;

pub const KNOWN_PACKS: u8 = 0x0E;

pub const CUSTOM_REPORT_DETAILS: u8 = 0x0F;

pub const SERVER_LINKS: u8 = 0x10;

/// The highest id of this table; the ids run from zero to it without a gap.
pub const LAST: u8 = 0x10;

} // verus!
