//! Raw wire-protocol values of the 8042 controller: command bytes, the
//! status register layout and the controller command byte layout.

use vstd::prelude::*;

verus! {

/// Status register bit: parity error on the last byte from the keyboard.
pub const STATUS_KEYBOARD_PARITY_ERROR: u8 = 0b1000_0000;
/// Status register bit: general timeout error.
pub const STATUS_GENERAL_TIMEOUT: u8 = 0b0100_0000;
/// Status register bit: the byte in the output buffer came from the
/// auxiliary device.
pub const STATUS_AUXILIARY_DEVICE_OUTPUT_BUFFER_FULL: u8 = 0b0010_0000;
/// Status register bit: the keyboard inhibit switch / password state.
pub const STATUS_INHIBIT_SWITCH: u8 = 0b0001_0000;
/// Status register bit: the last write was a command, not data.
pub const STATUS_COMMAND_OR_DATA: u8 = 0b0000_1000;
/// Status register bit: system flag.
pub const STATUS_SYSTEM_FLAG: u8 = 0b0000_0100;
/// Status register bit: the controller has not yet consumed the last byte
/// written to it.
pub const STATUS_INPUT_BUFFER_FULL: u8 = 0b0000_0010;
/// Status register bit: a byte is waiting in the output buffer.
pub const STATUS_OUTPUT_BUFFER_FULL: u8 = 0b0000_0001;

/// The status register as a typed value.  Constructed from the raw byte read
/// from the status port; the byte is kept as it was read.
#[derive(Clone, Copy, Debug, PartialEq, Eq, Structural)]
pub struct StatusRegister {
    bits: u8,
}

impl StatusRegister {
    /// The raw byte this register value was built from.
    pub closed spec fn spec_bits(&self) -> u8 {
        self.bits
    }

    /// Builds a register value from a raw status byte.
    pub fn from_bits_truncate(bits: u8) -> (r: StatusRegister)
        ensures
            r.spec_bits() == bits,
    {
        StatusRegister { bits }
    }

    /// The raw byte.
    pub fn bits(&self) -> (r: u8)
        ensures
            r == self.spec_bits(),
    {
        self.bits
    }

    /// True when every bit of `mask` is set in the register.
    pub fn contains(&self, mask: u8) -> (r: bool)
        ensures
            r == (self.spec_bits() & mask == mask),
    {
        self.bits & mask == mask
    }
}

/// Controller command byte bit: scancode translation to set 1.
pub const COMMAND_BYTE_KEYBOARD_TRANSLATE_MODE: u8 = 0b0100_0000;
/// Controller command byte bit: auxiliary device interface disabled.
pub const COMMAND_BYTE_DISABLE_AUXILIARY_DEVICE: u8 = 0b0010_0000;
/// Controller command byte bit: keyboard interface disabled.
pub const COMMAND_BYTE_DISABLE_KEYBOARD: u8 = 0b0001_0000;
/// Controller command byte bit: system flag.
pub const COMMAND_BYTE_SYSTEM_FLAG: u8 = 0b0000_0100;
/// Controller command byte bit: interrupt on auxiliary device output.
pub const COMMAND_BYTE_ENABLE_AUXILIARY_INTERRUPT: u8 = 0b0000_0010;
/// Controller command byte bit: interrupt on keyboard output.
pub const COMMAND_BYTE_ENABLE_KEYBOARD_INTERRUPT: u8 = 0b0000_0001;

/// The controller command byte bits that carry a meaning; other bits are
/// dropped when a raw byte is turned into a [`ControllerCommandByte`].
pub const COMMAND_BYTE_ALL_BITS: u8 = 0b0111_0111;

/// The controller's persistent configuration byte, read and written through
/// commands `0x20` and `0x60`.
#[derive(Clone, Copy, Debug, PartialEq, Eq, Structural)]
pub struct ControllerCommandByte {
    bits: u8,
}

impl ControllerCommandByte {
    /// The stored bits.
    pub closed spec fn spec_bits(&self) -> u8 {
        self.bits
    }

    /// Builds a command byte from a raw byte, dropping undefined bits.
    pub fn from_bits_truncate(bits: u8) -> (r: ControllerCommandByte)
        ensures
            r.spec_bits() == bits & COMMAND_BYTE_ALL_BITS,
    {
        ControllerCommandByte { bits: bits & COMMAND_BYTE_ALL_BITS }
    }

    /// The raw byte to write back to the controller.
    pub fn bits(&self) -> (r: u8)
        ensures
            r == self.spec_bits(),
    {
        self.bits
    }

    /// True when every bit of `mask` is set.
    pub fn contains(&self, mask: u8) -> (r: bool)
        ensures
            r == (self.spec_bits() & mask == mask),
    {
        self.bits & mask == mask
    }

    /// Sets or clears the bits of `mask`.
    pub fn set(&mut self, mask: u8, value: bool)
        ensures
            value ==> final(self).spec_bits() == old(self).spec_bits() | mask,
            !value ==> final(self).spec_bits() == old(self).spec_bits() & !mask,
    {
        if value {
            self.bits = self.bits | mask;
        } else {
            self.bits = self.bits & !mask;
        }
    }
}

/// Controller commands that neither return nor expect further data.
pub struct Command;

impl Command {
    pub const ENABLE_PASSWORD: u8 = 0xA6;
    pub const DISABLE_AUXILIARY_DEVICE_INTERFACE: u8 = 0xA7;
    pub const ENABLE_AUXILIARY_DEVICE_INTERFACE: u8 = 0xA8;

    pub const DISABLE_KEYBOARD_INTERFACE: u8 = 0xAD;
    pub const ENABLE_KEYBOARD_INTERFACE: u8 = 0xAE;

    /// Writes to status register.
    pub const POLL_INPUT_PORT_LOW: u8 = 0xC1;
    /// Writes to status register.
    pub const POLL_INPUT_PORT_HIGH: u8 = 0xC2;

    pub const PULSE_OUTPUT_PORT_START: u8 = 0xF0;
    pub const PULSE_OUTPUT_PORT_END: u8 = 0xFF;
}

/// Controller commands that place a result byte in the data register.
pub struct CommandReturnData;

impl CommandReturnData {
    pub const READ_CONTROLLER_COMMAND_BYTE: u8 = 0x20;
    pub const READ_RAM_START: u8 = 0x21;
    pub const READ_RAM_END: u8 = 0x3F;

    pub const TEST_PASSWORD_INSTALLED: u8 = 0xA4;
    pub const AUXILIARY_DEVICE_INTERFACE_TEST: u8 = 0xA9;
    pub const SELF_TEST: u8 = 0xAA;
    pub const KEYBOARD_INTERFACE_TEST: u8 = 0xAB;

    pub const READ_INPUT_PORT: u8 = 0xC0;
    pub const READ_OUTPUT_PORT: u8 = 0xD0;
    pub const READ_TEST_INPUTS: u8 = 0xE0;
}

/// Controller commands that expect a further byte in the data register.
pub struct CommandWaitData;

impl CommandWaitData {
    pub const WRITE_CONTROLLER_COMMAND_BYTE: u8 = 0x60;
    pub const WRITE_RAM_START: u8 = 0x61;
    pub const WRITE_RAM_END: u8 = 0x7F;

    /// Password must be null-terminated.
    pub const LOAD_PASSWORD: u8 = 0xA5;
    pub const WRITE_OUTPUT_PORT: u8 = 0xD1;
    pub const WRITE_KEYBOARD_OUTPUT_BUFFER: u8 = 0xD2;
    pub const WRITE_AUXILIARY_DEVICE_OUTPUT_BUFFER: u8 = 0xD3;
    pub const WRITE_TO_AUXILIARY_DEVICE: u8 = 0xD4;
}

/// Number of controller RAM bytes reachable through the RAM read and write
/// command ranges.
pub const CONTROLLER_RAM_SIZE: usize = 31;

/// Input port bits, read through `CommandReturnData::READ_INPUT_PORT`.
pub struct InputPortBits;

impl InputPortBits {
    pub const AUXILIARY_DATA_IN: u8 = 0b0000_0010;
    pub const KEYBOARD_DATA_IN: u8 = 0b0000_0001;
}

/// Output port bits, read through `CommandReturnData::READ_OUTPUT_PORT`.
pub struct OutputPortBits;

impl OutputPortBits {
    pub const KEYBOARD_DATA_OUT: u8 = 0b1000_0000;
    pub const KEYBOARD_CLOCK_OUT: u8 = 0b0100_0000;
    pub const IRQ12: u8 = 0b0010_0000;
    pub const IRQ1: u8 = 0b0001_0000;
    pub const AUXILIARY_CLOCK_OUT: u8 = 0b0000_1000;
    pub const AUXILIARY_DATA_OUT: u8 = 0b0000_0100;
    pub const GATE_ADDRESS_LINE_20: u8 = 0b0000_0010;
    pub const RESET_MICROPROCESSOR: u8 = 0b0000_0001;
}

} // verus!
