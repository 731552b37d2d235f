//! The layout table: the one compile-time customization surface of the
//! device. It assigns every physical input exactly one output code.

use vstd::prelude::*;
use crate::hid::{Key, KeyType};

verus! {

/// Consumer-control usage for "mute".
pub const MEDIA_USAGE_MUTE: u16 = 0xE2;

/// Consumer-control usage for "volume increment".
pub const MEDIA_USAGE_VOLUME_INCREMENT: u16 = 0xE9;

/// Consumer-control usage for "volume decrement".
pub const MEDIA_USAGE_VOLUME_DECREMENT: u16 = 0xEA;

/// Boot-keyboard scancode for the letter `o`.
pub const KEYCODE_O: u8 = 0x12;

/// Boot-keyboard scancode for the letter `s`.
pub const KEYCODE_S: u8 = 0x16;

/// Boot-keyboard scancode for the letter `f`.
pub const KEYCODE_F: u8 = 0x09;

/// Fixed mapping from each physical input to its output code. Constructed
/// once at startup and read-only thereafter.
#[derive(Clone, Copy, Debug, PartialEq, Eq, Structural)]
pub struct KeyLayout {
    pub encoder_left: KeyType,
    pub encoder_right: KeyType,
    pub encoder_button: KeyType,
    pub key1: KeyType,
    pub key2: KeyType,
    pub key3: KeyType,
}

impl KeyLayout {
    /// The code the table assigns to `key`.
    pub open spec fn spec_code_for(self, key: Key) -> KeyType {
        match key {
            Key::EncoderLeft => self.encoder_left,
            Key::EncoderRight => self.encoder_right,
            Key::EncoderButton => self.encoder_button,
            Key::Key1 => self.key1,
            Key::Key2 => self.key2,
            Key::Key3 => self.key3,
        }
    }

    /// Resolve a key through the table.
    pub fn code_for(&self, key: Key) -> (code: KeyType)
        ensures
            code == self.spec_code_for(key),
    {
        match key {
            Key::EncoderLeft => self.encoder_left,
            Key::EncoderRight => self.encoder_right,
            Key::EncoderButton => self.encoder_button,
            Key::Key1 => self.key1,
            Key::Key2 => self.key2,
            Key::Key3 => self.key3,
        }
    }
}

/// The stock layout: the encoder controls the volume (rotate for down/up,
/// push for mute), and the three keys type the letters `o`, `s` and `f`.
pub open spec fn spec_default_layout() -> KeyLayout {
    KeyLayout {
        encoder_left: KeyType::Media(MEDIA_USAGE_VOLUME_DECREMENT),
        encoder_right: KeyType::Media(MEDIA_USAGE_VOLUME_INCREMENT),
        encoder_button: KeyType::Media(MEDIA_USAGE_MUTE),
        key1: KeyType::Keycode(KEYCODE_O),
        key2: KeyType::Keycode(KEYCODE_S),
        key3: KeyType::Keycode(KEYCODE_F),
    }
}

impl Default for KeyLayout {
    /// Build the stock layout.
    fn default() -> (layout: KeyLayout)
        ensures
            layout == spec_default_layout(),
    {
        KeyLayout {
            encoder_left: KeyType::Media(MEDIA_USAGE_VOLUME_DECREMENT),
            encoder_right: KeyType::Media(MEDIA_USAGE_VOLUME_INCREMENT),
            encoder_button: KeyType::Media(MEDIA_USAGE_MUTE),
            key1: KeyType::Keycode(KEYCODE_O),
            key2: KeyType::Keycode(KEYCODE_S),
            key3: KeyType::Keycode(KEYCODE_F),
        }
    }
}

} // verus!
