//! The joypad register: eight keys seen through two select lines.

use vstd::prelude::*;

verus! {

/// Which of the eight keys are held down, as the host reports it.
#[derive(Debug, Clone, Copy, PartialEq, Eq, Structural)]
pub struct KeyState {
    pub a: bool,
    pub b: bool,
    pub select: bool,
    pub start: bool,
    pub right: bool,
    pub left: bool,
    pub up: bool,
    pub down: bool,
}

impl Default for KeyState {
    /// No key held.
    fn default() -> (k: Self)
        ensures
            k == KeyState::released(),
    {
        KeyState {
            a: false,
            b: false,
            select: false,
            start: false,
            right: false,
            left: false,
            up: false,
            down: false,
        }
    }
}

impl KeyState {
    /// No key held.
    pub open spec fn released() -> KeyState {
        KeyState {
            a: false,
            b: false,
            select: false,
            start: false,
            right: false,
            left: false,
            up: false,
            down: false,
        }
    }
}

/// Four keys as the low nibble of the register: a held key reads as 0.
pub open spec fn key_nibble(k0: bool, k1: bool, k2: bool, k3: bool) -> u8 {
    ((if k0 { 0int } else { 1 }) + (if k1 { 0int } else { 2 }) + (if k2 { 0int } else { 4 }) + (if k3 {
        0int
    } else {
        8
    })) as u8
}

/// What a read of the joypad register gives. The upper nibble is the stored
/// one. Bit 5 low alone selects the buttons, bit 4 low alone the directions;
/// with both lines low, or neither, the low nibble reads `0xF`.
pub open spec fn joypad_byte(joypad: u8, keys: KeyState) -> u8 {
    let upper = (joypad / 16) * 16;
    let buttons = (joypad / 32) % 2 == 0;
    let directions = (joypad / 16) % 2 == 0;
    let lower = if buttons == directions {
        0x0Fu8
    } else if buttons {
        key_nibble(keys.a, keys.b, keys.select, keys.start)
    } else {
        key_nibble(keys.right, keys.left, keys.up, keys.down)
    };
    (upper + lower) as u8
}

/// Synthesizes the joypad register from its stored select bits and the keys.
pub fn joypad(select: u8, keys: &KeyState) -> (r: u8)
    ensures
        r == joypad_byte(select, *keys),
        r / 16 == select / 16,
{
    let upper: u8 = (select / 16) * 16;
    let buttons = (select / 32) % 2 == 0;
    let directions = (select / 16) % 2 == 0;
    if buttons == directions {
        return upper + 0x0F;
    }
    let mut lower: u8 = 0;
    if buttons {
        if !keys.a {
            lower = lower + 1;
        }
        if !keys.b {
            lower = lower + 2;
        }
        if !keys.select {
            lower = lower + 4;
        }
        if !keys.start {
            lower = lower + 8;
        }
    } else {
        if !keys.right {
            lower = lower + 1;
        }
        if !keys.left {
            lower = lower + 2;
        }
        if !keys.up {
            lower = lower + 4;
        }
        if !keys.down {
            lower = lower + 8;
        }
    }
    upper + lower
}

} // verus!
