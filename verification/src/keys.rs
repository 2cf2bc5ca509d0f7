//! Keys as the settings window names them, and their virtual-key codes.

use vstd::prelude::*;
use crate::config::{Hotkey, PressMode};

verus! {

/// A key of the keyboard, by its kind and its place within the kind.
#[derive(Clone, Copy, Debug, PartialEq, Eq, Structural)]
pub enum Key {
    /// A letter key: 0 for A up to 25 for Z.
    Letter(u8),
    /// A digit key of the main block: 0 to 9.
    Digit(u8),
    /// A function key: 1 for F1 up to 12 for F12.
    Function(u8),
    /// Any other key.
    Other,
}

/// The virtual-key code of a key that can be the main key of a hotkey.
pub open spec fn vk_code(key: Key) -> Option<i32> {
    match key {
        Key::Letter(i) => if i < 26 {
            Some((0x41 + i) as i32)
        } else {
            None
        },
        Key::Digit(d) => if d < 10 {
            Some((0x30 + d) as i32)
        } else {
            None
        },
        Key::Function(n) => if 1 <= n <= 12 {
            Some((0x6F + n) as i32)
        } else {
            None
        },
        Key::Other => None,
    }
}

/// The virtual-key code of a key, for the keys that can be the main key of
/// a hotkey.
pub fn key_to_vk_code(key: Key) -> (code: Option<i32>)
    ensures
        code == vk_code(key),
{
    match key {
        Key::Letter(i) => if i < 26 {
            Some(0x41 + i as i32)
        } else {
            None
        },
        Key::Digit(d) => if d < 10 {
            Some(0x30 + d as i32)
        } else {
            None
        },
        Key::Function(n) => if 1 <= n && n <= 12 {
            Some(0x6F + n as i32)
        } else {
            None
        },
        Key::Other => None,
    }
}

/// The hotkey that a key press in the settings window stands for: the key
/// with the modifiers held, as a single press. `None` for a key that cannot
/// be the main key.
pub fn capture_hotkey(key: Key, ctrl: bool, alt: bool, shift: bool) -> (hotkey: Option<Hotkey>)
    ensures
        hotkey == (match vk_code(key) {
            Some(key_code) => Some(
                Hotkey { ctrl, alt, shift, key_code, mode: PressMode::SinglePress },
            ),
            None => None,
        }),
        hotkey matches Some(h) ==> h.valid(),
{
    match key_to_vk_code(key) {
        Some(key_code) => Some(Hotkey { ctrl, alt, shift, key_code, mode: PressMode::SinglePress }),
        None => None,
    }
}

} // verus!
