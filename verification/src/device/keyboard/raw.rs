//! Raw wire-protocol values of the PS/2 keyboard.

use vstd::prelude::*;

verus! {

/// Keyboard commands that expect at least an acknowledgement byte back.
#[derive(Debug)]
pub struct CommandReturnData;

impl CommandReturnData {
    pub const DEFAULT_DISABLE: u8 = 0xF5;
    pub const ECHO: u8 = 0xEE;
    pub const ENABLE: u8 = 0xF4;
    pub const READ_ID: u8 = 0xF2;
    pub const RESEND: u8 = 0xFE;
    pub const RESET: u8 = 0xFF;
    pub const SELECT_ALTERNATE_SCANCODES: u8 = 0xF0;

    pub const SET_DEFAULT: u8 = 0xF6;
    pub const SET_STATUS_INDICATORS: u8 = 0xED;
    pub const SET_TYPEMATIC_RATE: u8 = 0xF3;
}

/// Scancode set 3 commands that change the behaviour of every key.
#[derive(Debug)]
pub struct CommandSetAllKeys;

impl CommandSetAllKeys {
    pub const TYPEMATIC: u8 = 0xF7;
    pub const MAKE_SLASH_BREAK: u8 = 0xF8;
    pub const MAKE: u8 = 0xF9;
    pub const TYPEMATIC_SLASH_MAKE_SLASH_BREAK: u8 = 0xFA;
}

/// Scancode set 3 commands that change the behaviour of one key.
#[derive(Debug)]
pub struct CommandSetKeyType;

impl CommandSetKeyType {
    pub const TYPEMATIC: u8 = 0xFB;
    pub const MAKE_SLASH_BREAK: u8 = 0xFC;
    pub const MAKE: u8 = 0xFD;
}

/// The status indicator LED bits set through
/// `CommandReturnData::SET_STATUS_INDICATORS`.
pub const STATUS_INDICATOR_SCROLL_LOCK: u8 = 0b0000_0001;
pub const STATUS_INDICATOR_NUM_LOCK: u8 = 0b0000_0010;
pub const STATUS_INDICATOR_CAPS_LOCK: u8 = 0b0000_0100;

/// The status indicator bits that carry a meaning.
pub const STATUS_INDICATOR_ALL_BITS: u8 = 0b0000_0111;

/// The keyboard LED indicators as a typed value.
#[derive(Clone, Copy, Debug, PartialEq, Eq, Structural)]
pub struct StatusIndicators {
    bits: u8,
}

impl StatusIndicators {
    /// The stored bits.
    pub closed spec fn spec_bits(&self) -> u8 {
        self.bits
    }

    /// No indicator lit.
    pub fn empty() -> (r: StatusIndicators)
        ensures
            r.spec_bits() == 0,
    {
        StatusIndicators { bits: 0 }
    }

    /// Builds an indicator set from a raw byte, dropping undefined bits.
    pub fn from_bits_truncate(bits: u8) -> (r: StatusIndicators)
        ensures
            r.spec_bits() == bits & STATUS_INDICATOR_ALL_BITS,
    {
        StatusIndicators { bits: bits & STATUS_INDICATOR_ALL_BITS }
    }

    /// The raw byte sent to the keyboard.
    pub fn bits(&self) -> (r: u8)
        ensures
            r == self.spec_bits(),
    {
        self.bits
    }

    /// True when every bit of `mask` is set.
    pub fn contains(&self, mask: u8) -> (r: bool)
        ensures
            r == (self.spec_bits() & mask == mask),
    {
        self.bits & mask == mask
    }

    /// Sets or clears the bits of `mask`.
    pub fn set(&mut self, mask: u8, value: bool)
        ensures
            value ==> final(self).spec_bits() == old(self).spec_bits() | mask,
            !value ==> final(self).spec_bits() == old(self).spec_bits() & !mask,
    {
        if value {
            self.bits = self.bits | mask;
        } else {
            self.bits = self.bits & !mask;
        }
    }
}

/// Bytes the keyboard sends on its own.
#[derive(Debug)]
pub struct FromKeyboard;

impl FromKeyboard {
    pub const KEY_DETECTION_OVERRUN_SCANCODE_SET_2_AND_3: u8 = 0;
    pub const ID_FIRST_BYTE: u8 = 0xAB;
    pub const ID_SECOND_BYTE: u8 = 0x83;
    pub const BAT_COMPLETION_CODE: u8 = 0xAA;
    pub const BAT_FAILURE_CODE: u8 = 0xFC;
    pub const ECHO: u8 = 0xEE;
    pub const ACK: u8 = 0xFA;
    pub const RESEND: u8 = 0xFE;
    pub const KEY_DETECTION_OVERRUN_SCANCODE_SET_1: u8 = 0xFF;
}

} // verus!
