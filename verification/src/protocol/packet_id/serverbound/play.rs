//! Packets that the client sends during play.

use vstd::prelude::*;

verus! {

pub const CONFIRM_TELEPORTATION: u8 = 0x00;

pub const QUERY_BLOCK_ENTITY_TAG: u8 = 0x01;

pub const BUNDLE_ITEM_SELECTED: u8 = 0x02;

pub const CHANGE_DIFFICULTY: u8 = 0x03;

pub const ACKNOWLEDGE_MESSAGE: u8 = 0x04;

pub const CHAT_COMMAND: u8 = 0x05;

pub const SIGNED_CHAT_COMMAND: u8 = 0x06;

pub const CHAT_MESSAGE: u8 = 0x07;

pub const PLAYER_SESSION: u8 = 0x08;

pub const CHUNK_BATCH_RECEIVED: u8 = 0x09;

pub const CLIENT_STATUS: u8 = 0x0A;

pub const CLIENT_TICK_END: u8 = 0x0B;

pub const CLIENT_INFORMATION: u8 = 0x0C;

pub const COMMAND_SUGGESTIONS_REQUEST: u8 = 0x0D;

pub const ACKNOWLEDGE_CONFIGURATION: u8 = 0x0E;

pub const CLICK_CONTAINER_BUTTON: u8 = 0x0F;

pub const CLICK_CONTAINER: u8 = 0x10;

pub const CLOSE_CONTAINER: u8 = 0x11;

pub const CHANGE_CONTAINER_SLOT_STATE: u8 = 0x12;

pub const COOKIE_RESPONSE: u8 = 0x13;

pub const PLUGIN_MESSAGE: u8 = 0x14;

pub const DEBUG_SAMPLE_SUBSCRIPTION: u8 = 0x15;

pub const EDIT_BOOK: u8 = 0x16;

pub const QUERY_ENTITY_TAG: u8 = 0x17;

pub const INTERACT: u8 = 0x18;

pub const JIGSAW_GENERATE: u8 = 0x19;

pub const KEEP_ALIVE: u8 = 0x1A;

pub const LOCK_DIFFICULTY: u8 = 0x1B;

pub const SET_PLAYER_POSITION: u8 = 0x1C;

pub const SET_PLAYER_POSITION_AND_ROTATION: u8 = 0x1D;

pub const SET_PLAYER_ROTATION: u8 = 0x1E;

pub const SET_PLAYER_MOVEMENT_FLAGS: u8 = 0x1F;

pub const MOVE_VEHICLE: u8 = 0x20;

pub const PADDLE_BOAT: u8 = 0x21;

pub const PICK_ITEM_FROM_BLOCK: u8 = 0x22;

pub const PICK_ITEM_FROM_ENTITY: u8 = 0x23;

pub const PING_REQUEST: u8 = 0x24;

pub const PLACE_RECIPE: u8 = 0x25;

pub const PLAYER_ABILITIES: u8 = 0x26;

pub const PLAYER_ACTION: u8 = 0x27;

pub const PLAYER_COMMAND: u8 = 0x28;

pub const PLAYER_INPUT: u8 = 0x29;

pub const PLAYER_LOADED: u8 = 0x2A;

pub const PONG: u8 = 0x2B;

pub const CHANGE_RECIPE_BOOK_SETTINGS: u8 = 0x2C;

pub const SET_SEEN_RECIPE: u8 = 0x2D;

pub const RENAME_ITEM: u8 = 0x2E;

pub const RESOURCE_PACK_RESPONSE: u8 = 0x2F;

pub const SEEN_ADVANCEMENTS: u8 = 0x30;

pub const SELECT_TRADE: u8 = 0x31;

pub const SET_BEACON_EFFECT: u8 = 0x32;

pub const SET_HELD_ITEM: u8 = 0x33;

pub const PROGRAM_COMMAND_BLOCK: u8 = 0x34;

pub const PROGRAM_COMMAND_BLOCK_MINECART: u8 = 0x35;

pub const SET_CREATIVE_MODE_SLOT: u8 = 0x36;

pub const PROGRAM_JIGSAW_BLOCK: u8 = 0x37;

pub const PROGRAM_STRUCTURE_BLOCK: u8 = 0x38;

pub const SET_TEST_BLOCK: u8 = 0x39;

pub const UPDATE_SIGN: u8 = 0x3A;

pub const SWING_ARM: u8 = 0x3B;

pub const TELEPORT_TO_ENTITY: u8 = 0x3C;

pub const TEST_INSTANCE_BLOCK_ACTION: u8 = 0x3D;

pub const USE_ITEM_ON: u8 = 0x3E;

pub const USE_ITEM: u8 = 0x3F;

/// The highest id of this table; the ids run from zero to it without a gap.
pub const LAST: u8 = 0x3F;

} // verus!
