//! Early identification of a PS/2 device: scancode reporting is disabled,
//! the device is asked for its two identification bytes, and the pair is
//! mapped to a device kind.

use vstd::prelude::*;

use super::io::SendToDevice;
use super::keyboard::raw::{CommandReturnData, FromKeyboard};

verus! {

/// What the identification exchange concluded.
#[derive(Clone, Copy, Debug, PartialEq, Eq, Structural)]
pub enum Device {
    Keyboard,
    Mouse,
    UnknownID { first_byte: u8, second_byte: u8 },
}

/// Where the identification exchange stands.
#[derive(Clone, Copy, Debug, PartialEq, Eq, Structural)]
pub enum IdentificationState {
    /// Nothing sent yet.
    Start,
    /// The disable command was sent; its acknowledgement is awaited.
    WaitAck1,
    /// The read-identification command was sent; its acknowledgement is
    /// awaited.
    WaitAck2,
    /// The first identification byte is awaited.
    WaitIdByte1,
    /// The second identification byte is awaited.
    WaitIdByte2,
    /// The exchange is over.
    End,
}

/// One step of the identification exchange: fed the machine's state, its
/// stored first byte and the arriving byte, yields the state and stored
/// byte afterwards, the conclusion if one was reached, and the bytes sent
/// to the device.
pub open spec fn identify_step(state: IdentificationState, byte1: u8, new_data: u8) -> (
    IdentificationState,
    u8,
    Option<Device>,
    Seq<u8>,
) {
    match state {
        IdentificationState::Start => {
            (
                IdentificationState::WaitAck1,
                byte1,
                None,
                seq![CommandReturnData::DEFAULT_DISABLE],
            )
        },
        IdentificationState::WaitAck1 => {
            if new_data == FromKeyboard::ACK {
                (IdentificationState::WaitAck2, byte1, None, seq![CommandReturnData::READ_ID])
            } else {
                (state, byte1, None, Seq::empty())
            }
        },
        IdentificationState::WaitAck2 => {
            if new_data == FromKeyboard::ACK {
                (IdentificationState::WaitIdByte1, byte1, None, Seq::empty())
            } else {
                (state, byte1, None, Seq::empty())
            }
        },
        IdentificationState::WaitIdByte1 => {
            (IdentificationState::WaitIdByte2, new_data, None, Seq::empty())
        },
        IdentificationState::WaitIdByte2 => {
            let device = if byte1 == FromKeyboard::ID_FIRST_BYTE && new_data
                == FromKeyboard::ID_SECOND_BYTE {
                Device::Keyboard
            } else {
                Device::UnknownID { first_byte: byte1, second_byte: new_data }
            };
            (IdentificationState::End, byte1, Some(device), Seq::empty())
        },
        IdentificationState::End => (state, byte1, None, Seq::empty()),
    }
}

/// Drives the identification exchange, one received byte at a time.
#[derive(Clone, Copy, Debug, PartialEq, Eq, Structural)]
pub struct DeviceIdentifier {
    state: IdentificationState,
    byte1: u8,
}

impl DeviceIdentifier {
    /// Where the exchange stands.
    pub closed spec fn spec_state(&self) -> IdentificationState {
        self.state
    }

    /// The stored first identification byte.
    pub closed spec fn spec_byte1(&self) -> u8 {
        self.byte1
    }

    /// An identifier that has not sent anything yet.
    pub fn new() -> (r: DeviceIdentifier)
        ensures
            r.spec_state() == IdentificationState::Start,
            r.spec_byte1() == 0,
    {
        DeviceIdentifier { state: IdentificationState::Start, byte1: 0 }
    }

    /// Starts the exchange over: disables scancode reporting and waits for
    /// the acknowledgement.
    pub fn start_identification<T: SendToDevice>(&mut self, device: &mut T)
        ensures
            final(self).spec_state() == IdentificationState::WaitAck1,
            final(self).spec_byte1() == old(self).spec_byte1(),
            final(device).sent() == old(device).sent().push(CommandReturnData::DEFAULT_DISABLE),
    {
        self.state = IdentificationState::Start;
        let _ = self.byte_received(device, 0);
    }

    /// Feeds one byte received from the device to the exchange, following
    /// [`identify_step`] exactly.
    pub fn byte_received<T: SendToDevice>(&mut self, device: &mut T, data: u8) -> (r: Option<
        Device,
    >)
        ensures
            ({
                let step = identify_step(old(self).spec_state(), old(self).spec_byte1(), data);
                &&& final(self).spec_state() == step.0
                &&& final(self).spec_byte1() == step.1
                &&& r == step.2
                &&& final(device).sent() == old(device).sent() + step.3
            }),
    {
        proof {
            assert(old(device).sent() + Seq::<u8>::empty() =~= old(device).sent());
            assert(old(device).sent() + seq![CommandReturnData::DEFAULT_DISABLE] =~= old(
                device,
            ).sent().push(CommandReturnData::DEFAULT_DISABLE));
            assert(old(device).sent() + seq![CommandReturnData::READ_ID] =~= old(
                device,
            ).sent().push(CommandReturnData::READ_ID));
        }
        match self.state {
            IdentificationState::Start => {
                device.send(CommandReturnData::DEFAULT_DISABLE);
                self.state = IdentificationState::WaitAck1;
                None
            },
            IdentificationState::WaitAck1 => {
                if data == FromKeyboard::ACK {
                    device.send(CommandReturnData::READ_ID);
                    self.state = IdentificationState::WaitAck2;
                }
                None
            },
            IdentificationState::WaitAck2 => {
                if data == FromKeyboard::ACK {
                    self.state = IdentificationState::WaitIdByte1;
                }
                None
            },
            IdentificationState::WaitIdByte1 => {
                self.state = IdentificationState::WaitIdByte2;
                self.byte1 = data;
                None
            },
            IdentificationState::WaitIdByte2 => {
                self.state = IdentificationState::End;
                if self.byte1 == FromKeyboard::ID_FIRST_BYTE && data
                    == FromKeyboard::ID_SECOND_BYTE {
                    Some(Device::Keyboard)
                } else {
                    Some(Device::UnknownID { first_byte: self.byte1, second_byte: data })
                }
            },
            IdentificationState::End => None,
        }
    }
}

} // verus!
