//! Codes of the features that most monitors implement.

use vstd::prelude::*;

verus! {

pub const BRIGHTNESS: u8 = 0x10;

pub const CONTRAST: u8 = 0x12;

pub const COLOR_TEMPERATURE: u8 = 0x14;

pub const RED_GAIN: u8 = 0x16;

pub const GREEN_GAIN: u8 = 0x18;

pub const BLUE_GAIN: u8 = 0x1A;

pub const POWER_MODE: u8 = 0xD6;

pub const INPUT_SOURCE: u8 = 0x60;

pub const AUDIO_VOLUME: u8 = 0x62;

pub const AUDIO_MUTE: u8 = 0x8D;

} // verus!
