//! Reading and decoding the controller status register.

use vstd::prelude::*;

use crate::controller::io::{PortIO, PortOp, STATUS_REGISTER_RAW};
use crate::controller::raw::{
    StatusRegister, STATUS_AUXILIARY_DEVICE_OUTPUT_BUFFER_FULL, STATUS_GENERAL_TIMEOUT,
    STATUS_INHIBIT_SWITCH, STATUS_INPUT_BUFFER_FULL, STATUS_KEYBOARD_PARITY_ERROR,
    STATUS_OUTPUT_BUFFER_FULL, STATUS_SYSTEM_FLAG,
};

verus! {

/// Parity of the last byte from the keyboard was odd, as expected.
#[derive(Clone, Copy, Debug, PartialEq, Eq, Structural)]
pub struct OddParity;

/// Parity of the last byte from the keyboard was even: a transmission error.
#[derive(Clone, Copy, Debug, PartialEq, Eq, Structural)]
pub struct EvenParity;

/// Which device the byte waiting in the output buffer belongs to.
#[derive(Clone, Copy, Debug, PartialEq, Eq, Structural)]
pub enum DataOwner {
    KeyboardOrCommandController,
    AuxiliaryDevice,
}

/// Whether the password inhibit switch is active.
#[derive(Clone, Copy, Debug, PartialEq, Eq, Structural)]
pub enum PasswordState {
    Active,
    Inactive,
}

/// The owner of the waiting data byte, decoded from a raw status byte.
/// The auxiliary bit takes precedence when both output buffer bits are set;
/// the auxiliary bit alone, without the output buffer bit, means no data.
pub open spec fn data_owner_of(bits: u8) -> Option<DataOwner> {
    if bits & (STATUS_AUXILIARY_DEVICE_OUTPUT_BUFFER_FULL | STATUS_OUTPUT_BUFFER_FULL) == (
    STATUS_AUXILIARY_DEVICE_OUTPUT_BUFFER_FULL | STATUS_OUTPUT_BUFFER_FULL) {
        Some(DataOwner::AuxiliaryDevice)
    } else if bits & STATUS_OUTPUT_BUFFER_FULL == STATUS_OUTPUT_BUFFER_FULL {
        Some(DataOwner::KeyboardOrCommandController)
    } else {
        None
    }
}

/// On hardware the auxiliary output buffer bit is only ever set together
/// with the output buffer bit.  For every status byte that obeys this, the
/// decoder yields the auxiliary device whenever the auxiliary bit is set,
/// regardless of the other bits, and yields the keyboard only when the
/// auxiliary bit is clear: the two owners are never confused.
pub proof fn lemma_data_owner_exclusive(bits: u8)
    requires
        bits & STATUS_AUXILIARY_DEVICE_OUTPUT_BUFFER_FULL
            == STATUS_AUXILIARY_DEVICE_OUTPUT_BUFFER_FULL ==> bits & STATUS_OUTPUT_BUFFER_FULL
            == STATUS_OUTPUT_BUFFER_FULL,
    ensures
        bits & STATUS_AUXILIARY_DEVICE_OUTPUT_BUFFER_FULL
            == STATUS_AUXILIARY_DEVICE_OUTPUT_BUFFER_FULL ==> data_owner_of(bits) == Some(
            DataOwner::AuxiliaryDevice,
        ),
        data_owner_of(bits) == Some(DataOwner::KeyboardOrCommandController) ==> bits
            & STATUS_AUXILIARY_DEVICE_OUTPUT_BUFFER_FULL != STATUS_AUXILIARY_DEVICE_OUTPUT_BUFFER_FULL,
        data_owner_of(bits) is None ==> bits & STATUS_OUTPUT_BUFFER_FULL == 0,
{
    assert((0x20u8 | 0x01u8) == 0x21u8) by (bit_vector);
    assert((bits & 0x20u8 == 0x20u8 && bits & 0x01u8 == 0x01u8) ==> bits & 0x21u8 == 0x21u8)
        by (bit_vector);
    assert((bits & 0x21u8 != 0x21u8 && bits & 0x01u8 == 0x01u8) ==> bits & 0x20u8 != 0x20u8)
        by (bit_vector);
    assert(bits & 0x01u8 == 0x01u8 || bits & 0x01u8 == 0) by (bit_vector);
}

/// A snapshot of the status register.  It is decoded on every read and never
/// cached across port accesses, because the hardware register can change
/// between reads.
#[derive(Clone, Copy, Debug, PartialEq, Eq, Structural)]
pub struct StatusInfo {
    register: StatusRegister,
}

impl StatusInfo {
    /// The raw status byte this snapshot was built from.
    pub closed spec fn spec_bits(&self) -> u8 {
        self.register.spec_bits()
    }

    /// Wraps a register value read from the status port.
    pub fn from_register(register: StatusRegister) -> (r: StatusInfo)
        ensures
            r.spec_bits() == register.spec_bits(),
    {
        StatusInfo { register }
    }

    /// Parity of the last byte received from the keyboard.
    pub fn keyboard_data_parity(&self) -> (r: Result<OddParity, EvenParity>)
        ensures
            r is Err <==> self.spec_bits() & STATUS_KEYBOARD_PARITY_ERROR
                == STATUS_KEYBOARD_PARITY_ERROR,
    {
        if self.register.contains(STATUS_KEYBOARD_PARITY_ERROR) {
            Err(EvenParity)
        } else {
            Ok(OddParity)
        }
    }

    /// If `true` then there is a general timeout error.
    pub fn general_timeout_error(&self) -> (r: bool)
        ensures
            r == (self.spec_bits() & STATUS_GENERAL_TIMEOUT == STATUS_GENERAL_TIMEOUT),
    {
        self.register.contains(STATUS_GENERAL_TIMEOUT)
    }

    /// If `Some(_)` there is new data available to read from the controller.
    pub fn data_availability(&self) -> (r: Option<DataOwner>)
        ensures
            r == data_owner_of(self.spec_bits()),
    {
        if self.register.contains(
            STATUS_AUXILIARY_DEVICE_OUTPUT_BUFFER_FULL | STATUS_OUTPUT_BUFFER_FULL,
        ) {
            Some(DataOwner::AuxiliaryDevice)
        } else if self.register.contains(STATUS_OUTPUT_BUFFER_FULL) {
            Some(DataOwner::KeyboardOrCommandController)
        } else {
            None
        }
    }

    /// Whether the password inhibit switch is active.
    pub fn password_state(&self) -> (r: PasswordState)
        ensures
            r == PasswordState::Active <==> self.spec_bits() & STATUS_INHIBIT_SWITCH
                == STATUS_INHIBIT_SWITCH,
    {
        if self.register.contains(STATUS_INHIBIT_SWITCH) {
            PasswordState::Active
        } else {
            PasswordState::Inactive
        }
    }

    /// The system flag, set by a completed controller self test.
    pub fn system_flag(&self) -> (r: bool)
        ensures
            r == (self.spec_bits() & STATUS_SYSTEM_FLAG == STATUS_SYSTEM_FLAG),
    {
        self.register.contains(STATUS_SYSTEM_FLAG)
    }

    /// There is data that controller has not handled yet.  Nothing may be
    /// written to either port while this is set.
    pub fn input_buffer_full(&self) -> (r: bool)
        ensures
            r == (self.spec_bits() & STATUS_INPUT_BUFFER_FULL == STATUS_INPUT_BUFFER_FULL),
    {
        self.register.contains(STATUS_INPUT_BUFFER_FULL)
    }

    /// The raw register value.
    pub fn raw(&self) -> (r: StatusRegister)
        ensures
            r.spec_bits() == self.spec_bits(),
    {
        self.register
    }
}

/// Reads the status register once and decodes it.
pub fn read_status<T: PortIO>(io: &mut T) -> (r: StatusInfo)
    ensures
        final(io).log() == old(io).log().push(
            PortOp::Read { port: STATUS_REGISTER_RAW, value: r.spec_bits() },
        ),
{
    let raw = io.read(STATUS_REGISTER_RAW);
    StatusInfo::from_register(StatusRegister::from_bits_truncate(raw))
}

} // verus!
