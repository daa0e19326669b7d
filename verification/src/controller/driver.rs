//! The 8042 controller protocol state machine.
//!
//! One live handle represents the controller: [`InitController`] is the
//! entry point, [`DevicesDisabled`] exposes configuration and testing, and
//! [`EnabledDevices`] exposes runtime data transfer.  Transitions consume
//! the old handle, so an operation that is invalid for the current state
//! cannot be called at all.
//!
//! Every operation's contract extends the port trace by a
//! [`guarded_extension`]: a byte is only ever written to the controller
//! right after a status read that showed an empty input buffer.  Busy waits
//! are bounded by [`WAIT_SPIN_LIMIT`] polls; a controller that stays busy
//! longer surfaces as a [`WaitTimeout`] instead of hanging the caller.

pub mod debug;
pub mod marker;
pub mod status;

use vstd::prelude::*;

use crate::controller::io::{
    data_reads_of, guarded_extension, is_empty_status_read, lemma_data_reads_of_push,
    lemma_guarded_push_read, lemma_guarded_push_write, lemma_guarded_refl, lemma_guarded_trans,
    lemma_responded_seq_one, lemma_responded_seq_push, lemma_writes_of_push_read,
    lemma_writes_of_push_write, responded, responded_seq, responded_twice, response_chain,
    writes_of, PortIO, PortOp, COMMAND_REGISTER_RAW, DATA_PORT_RAW, STATUS_REGISTER_RAW,
};
use crate::controller::raw::{
    Command, CommandReturnData, CommandWaitData, ControllerCommandByte, COMMAND_BYTE_ALL_BITS,
    COMMAND_BYTE_ENABLE_AUXILIARY_INTERRUPT, COMMAND_BYTE_ENABLE_KEYBOARD_INTERRUPT,
    COMMAND_BYTE_KEYBOARD_TRANSLATE_MODE, CONTROLLER_RAM_SIZE,
};

use core::marker::PhantomData;

use status::{read_status, StatusInfo};

verus! {

/// How many times a busy wait polls the status register before giving up.
pub const WAIT_SPIN_LIMIT: u32 = 100000;

/// The controller stayed busy, or stayed silent, for a whole poll budget of
/// [`WAIT_SPIN_LIMIT`] status reads.
#[derive(Clone, Copy, Debug, PartialEq, Eq, Structural)]
pub struct WaitTimeout;

/// Polls the status register until the input buffer is empty.  Returns
/// `true` as soon as an empty input buffer was observed, `false` when the
/// poll budget ran out first.
#[verifier::loop_isolation(false)]
fn wait_input_empty<T: PortIO>(io: &mut T) -> (r: bool)
    ensures
        guarded_extension(old(io).log(), final(io).log()),
        writes_of(final(io).log()) == writes_of(old(io).log()),
        data_reads_of(final(io).log()) == data_reads_of(old(io).log()),
        r ==> final(io).log().len() > old(io).log().len() && is_empty_status_read(
            final(io).log().last(),
        ),
{
    let ghost pre = io.log();
    proof {
        lemma_guarded_refl(pre);
    }
    let mut tries: u32 = 0;
    while tries < WAIT_SPIN_LIMIT
        invariant
            guarded_extension(pre, io.log()),
            writes_of(io.log()) == writes_of(pre),
            data_reads_of(io.log()) == data_reads_of(pre),
        decreases WAIT_SPIN_LIMIT - tries,
    {
        let ghost before = io.log();
        let st = read_status(io);
        proof {
            lemma_guarded_push_read(pre, before, STATUS_REGISTER_RAW, st.spec_bits());
            lemma_writes_of_push_read(before, STATUS_REGISTER_RAW, st.spec_bits());
            lemma_data_reads_of_push(
                before,
                PortOp::Read { port: STATUS_REGISTER_RAW, value: st.spec_bits() },
            );
        }
        if !st.input_buffer_full() {
            proof {
                let b = st.spec_bits();
                assert(b & 2u8 == 2u8 || b & 2u8 == 0u8) by (bit_vector);
            }
            return true;
        }
        tries = tries + 1;
    }
    false
}

/// Sends a command byte to the command register, waiting for an empty input
/// buffer before the write and again afterwards, so that the next write may
/// follow immediately.
pub fn send_controller_command_and_wait_processing<T: PortIO>(io: &mut T, command: u8) -> (r:
    Result<(), WaitTimeout>)
    ensures
        guarded_extension(old(io).log(), final(io).log()),
        data_reads_of(final(io).log()) == data_reads_of(old(io).log()),
        r is Ok ==> writes_of(final(io).log()) == writes_of(old(io).log()).push(
            (COMMAND_REGISTER_RAW, command),
        ) && final(io).log().len() > old(io).log().len() && is_empty_status_read(
            final(io).log().last(),
        ),
        r is Err ==> writes_of(final(io).log()) == writes_of(old(io).log()) || writes_of(
            final(io).log(),
        ) == writes_of(old(io).log()).push((COMMAND_REGISTER_RAW, command)),
{
    let ghost pre = io.log();
    if !wait_input_empty(io) {
        return Err(WaitTimeout);
    }
    let ghost mid = io.log();
    io.write(COMMAND_REGISTER_RAW, command);
    proof {
        lemma_guarded_push_write(pre, mid, COMMAND_REGISTER_RAW, command);
        lemma_writes_of_push_write(mid, COMMAND_REGISTER_RAW, command);
        lemma_data_reads_of_push(mid, PortOp::Write { port: COMMAND_REGISTER_RAW, value: command });
    }
    let ghost mid2 = io.log();
    let accepted = wait_input_empty(io);
    proof {
        lemma_guarded_trans(pre, mid2, io.log());
    }
    if !accepted {
        return Err(WaitTimeout);
    }
    Ok(())
}

/// Sends a command byte and then its data byte to the controller.
pub fn send_controller_command_and_write_data<T: PortIO>(io: &mut T, command: u8, data: u8) -> (r:
    Result<(), WaitTimeout>)
    ensures
        guarded_extension(old(io).log(), final(io).log()),
        data_reads_of(final(io).log()) == data_reads_of(old(io).log()),
        r is Ok ==> writes_of(final(io).log()) == writes_of(old(io).log()).push(
            (COMMAND_REGISTER_RAW, command),
        ).push((DATA_PORT_RAW, data)),
        r is Err ==> writes_of(final(io).log()) == writes_of(old(io).log()) || writes_of(
            final(io).log(),
        ) == writes_of(old(io).log()).push((COMMAND_REGISTER_RAW, command)),
{
    let ghost pre = io.log();
    match send_controller_command_and_wait_processing(io, command) {
        Ok(()) => {},
        Err(e) => {
            return Err(e);
        },
    }
    let ghost mid = io.log();
    io.write(DATA_PORT_RAW, data);
    proof {
        lemma_guarded_push_write(pre, mid, DATA_PORT_RAW, data);
        lemma_writes_of_push_write(mid, DATA_PORT_RAW, data);
        lemma_data_reads_of_push(mid, PortOp::Write { port: DATA_PORT_RAW, value: data });
    }
    Ok(())
}

/// Writes the controller command byte back to the controller.
pub fn write_controller_command_byte<T: PortIO>(io: &mut T, data: ControllerCommandByte) -> (r:
    Result<(), WaitTimeout>)
    ensures
        guarded_extension(old(io).log(), final(io).log()),
        data_reads_of(final(io).log()) == data_reads_of(old(io).log()),
        r is Ok ==> writes_of(final(io).log()) == writes_of(old(io).log()).push(
            (COMMAND_REGISTER_RAW, CommandWaitData::WRITE_CONTROLLER_COMMAND_BYTE),
        ).push((DATA_PORT_RAW, data.spec_bits())),
        r is Err ==> writes_of(final(io).log()) == writes_of(old(io).log()) || writes_of(
            final(io).log(),
        ) == writes_of(old(io).log()).push(
            (COMMAND_REGISTER_RAW, CommandWaitData::WRITE_CONTROLLER_COMMAND_BYTE),
        ),
{
    send_controller_command_and_write_data(
        io,
        CommandWaitData::WRITE_CONTROLLER_COMMAND_BYTE,
        data.bits(),
    )
}

/// Sends a command whose reply arrives in the data register, and reads the
/// reply.  A stale byte found in the output buffer beforehand is drained
/// and discarded; the poll for the reply accepts only data owned by the
/// controller or keyboard, never by the auxiliary device.
#[verifier::loop_isolation(false)]
pub fn send_controller_command_and_wait_response<T: PortIO>(io: &mut T, command: u8) -> (r: Result<
    u8,
    WaitTimeout,
>)
    ensures
        guarded_extension(old(io).log(), final(io).log()),
        r matches Ok(value) ==> writes_of(final(io).log()) == writes_of(old(io).log()).push(
            (COMMAND_REGISTER_RAW, command),
        ) && responded(data_reads_of(old(io).log()), data_reads_of(final(io).log()), value),
        r is Err ==> writes_of(final(io).log()) == writes_of(old(io).log()) || writes_of(
            final(io).log(),
        ) == writes_of(old(io).log()).push((COMMAND_REGISTER_RAW, command)),
        r is Err ==> data_reads_of(final(io).log()) == data_reads_of(old(io).log()) || exists|
            b: u8,
        | data_reads_of(final(io).log()) == #[trigger] data_reads_of(old(io).log()).push(b),
{
    let ghost pre = io.log();
    let ghost pre_reads = data_reads_of(pre);

    let ghost before_check = io.log();
    let st = read_status(io);
    proof {
        lemma_guarded_refl(pre);
        lemma_guarded_push_read(pre, before_check, STATUS_REGISTER_RAW, st.spec_bits());
        lemma_writes_of_push_read(before_check, STATUS_REGISTER_RAW, st.spec_bits());
        lemma_data_reads_of_push(
            before_check,
            PortOp::Read { port: STATUS_REGISTER_RAW, value: st.spec_bits() },
        );
    }
    if st.data_availability().is_some() {
        let ghost before_drain = io.log();
        let stale = io.read(DATA_PORT_RAW);
        proof {
            lemma_guarded_push_read(pre, before_drain, DATA_PORT_RAW, stale);
            lemma_writes_of_push_read(before_drain, DATA_PORT_RAW, stale);
            lemma_data_reads_of_push(
                before_drain,
                PortOp::Read { port: DATA_PORT_RAW, value: stale },
            );
        }
    }
    let ghost drained = io.log();

    match send_controller_command_and_wait_processing(io, command) {
        Ok(()) => {},
        Err(e) => {
            proof {
                lemma_guarded_trans(pre, drained, io.log());
                let d1 = data_reads_of(io.log());
                if d1 != pre_reads {
                    assert(d1 =~= pre_reads.push(d1.last()));
                }
            }
            return Err(e);
        },
    }
    proof {
        lemma_guarded_trans(pre, drained, io.log());
    }

    let mut tries: u32 = 0;
    while tries < WAIT_SPIN_LIMIT
        invariant
            guarded_extension(pre, io.log()),
            writes_of(io.log()) == writes_of(pre).push((COMMAND_REGISTER_RAW, command)),
            data_reads_of(io.log()) == data_reads_of(pre) || data_reads_of(io.log())
                == data_reads_of(drained),
            data_reads_of(drained) == data_reads_of(pre) || (data_reads_of(drained).len()
                == data_reads_of(pre).len() + 1 && data_reads_of(drained).subrange(
                0,
                data_reads_of(pre).len() as int,
            ) == data_reads_of(pre)),
        decreases WAIT_SPIN_LIMIT - tries,
    {
        let ghost before_poll = io.log();
        let st = read_status(io);
        proof {
            lemma_guarded_push_read(pre, before_poll, STATUS_REGISTER_RAW, st.spec_bits());
            lemma_writes_of_push_read(before_poll, STATUS_REGISTER_RAW, st.spec_bits());
            lemma_data_reads_of_push(
                before_poll,
                PortOp::Read { port: STATUS_REGISTER_RAW, value: st.spec_bits() },
            );
        }
        match st.data_availability() {
            Some(status::DataOwner::KeyboardOrCommandController) => {
                let ghost before_reply = io.log();
                let value = io.read(DATA_PORT_RAW);
                proof {
                    lemma_guarded_push_read(pre, before_reply, DATA_PORT_RAW, value);
                    lemma_writes_of_push_read(before_reply, DATA_PORT_RAW, value);
                    lemma_data_reads_of_push(
                        before_reply,
                        PortOp::Read { port: DATA_PORT_RAW, value },
                    );
                    let dr_before = data_reads_of(before_reply);
                    let n = pre_reads.len() as int;
                    assert(data_reads_of(io.log()) == dr_before.push(value));
                    if dr_before == data_reads_of(pre) {
                        assert(dr_before.push(value).subrange(0, n) =~= pre_reads);
                    } else {
                        assert(dr_before.subrange(0, n) == pre_reads);
                        assert(dr_before.push(value).subrange(0, n) =~= dr_before.subrange(0, n));
                    }
                    assert(data_reads_of(io.log()).subrange(0, pre_reads.len() as int)
                        == pre_reads);
                }
                return Ok(value);
            },
            _ => {},
        }
        tries = tries + 1;
    }
    proof {
        let d1 = data_reads_of(io.log());
        if d1 != pre_reads {
            assert(d1 =~= pre_reads.push(d1.last()));
        }
    }
    Err(WaitTimeout)
}

/// The outcome of a device interface test, decoded from the result byte.
#[derive(Clone, Copy, Debug, PartialEq, Eq, Structural)]
pub enum DeviceInterfaceError {
    ClockLineLow,
    ClockLineHigh,
    DataLineLow,
    DataLineHigh,
    UnknownValue(u8),
    /// The controller never delivered a test result within the poll budget.
    Timeout,
}

impl DeviceInterfaceError {
    /// The meaning of an interface test result byte: zero is success, the
    /// values one to four name a stuck clock or data line, anything else is
    /// unknown.
    pub open spec fn spec_from_test_result(value: u8) -> Result<(), DeviceInterfaceError> {
        if value == 0 {
            Ok(())
        } else if value == 1 {
            Err(DeviceInterfaceError::ClockLineLow)
        } else if value == 2 {
            Err(DeviceInterfaceError::ClockLineHigh)
        } else if value == 3 {
            Err(DeviceInterfaceError::DataLineLow)
        } else if value == 4 {
            Err(DeviceInterfaceError::DataLineHigh)
        } else {
            Err(DeviceInterfaceError::UnknownValue(value))
        }
    }

    /// Decodes an interface test result byte.
    pub fn from_test_result(value: u8) -> (r: Result<(), DeviceInterfaceError>)
        ensures
            r == Self::spec_from_test_result(value),
    {
        match value {
            0 => Ok(()),
            1 => Err(DeviceInterfaceError::ClockLineLow),
            2 => Err(DeviceInterfaceError::ClockLineHigh),
            3 => Err(DeviceInterfaceError::DataLineLow),
            4 => Err(DeviceInterfaceError::DataLineHigh),
            _ => Err(DeviceInterfaceError::UnknownValue(value)),
        }
    }
}

/// Why enabling devices failed; the failed handle is handed back beside it.
#[derive(Clone, Copy, Debug, PartialEq, Eq, Structural)]
pub enum InterfaceError {
    Keyboard(DeviceInterfaceError),
    AuxiliaryDevice(DeviceInterfaceError),
    /// A busy wait ran out while reconfiguring the controller, after the
    /// interface tests had already passed.
    Timeout,
}

/// Why the controller self test did not succeed.
#[derive(Clone, Copy, Debug, PartialEq, Eq, Structural)]
pub enum SelfTestError {
    /// The self test answered with this byte instead of `0x55`.
    Failed(u8),
    /// The controller never answered within the poll budget.
    Timeout,
}

/// Which device interfaces a transition enables.
#[derive(Clone, Copy, Debug, PartialEq, Eq, Structural)]
pub enum EnableDevice {
    Keyboard,
    AuxiliaryDevice,
    KeyboardAndAuxiliaryDevice,
}

/// A data byte read from the controller, tagged with its owner.
#[derive(Clone, Copy, Debug, PartialEq, Eq, Structural)]
pub enum DeviceData {
    Keyboard(u8),
    AuxiliaryDevice(u8),
}

/// A raw command byte with both interrupt enable bits cleared, as the
/// initialization sequence writes it back.
pub open spec fn irq_bits_cleared(raw: u8) -> u8 {
    ((raw & COMMAND_BYTE_ALL_BITS)
        & !COMMAND_BYTE_ENABLE_AUXILIARY_INTERRUPT) & !COMMAND_BYTE_ENABLE_KEYBOARD_INTERRUPT
}

/// The exact writes of one initialization sequence whose command byte read
/// back `raw`: disable both interfaces, read the command byte, write it
/// back with interrupts off.
pub open spec fn start_init_writes(raw: u8) -> Seq<(u16, u8)> {
    seq![
        (COMMAND_REGISTER_RAW, Command::DISABLE_AUXILIARY_DEVICE_INTERFACE),
        (COMMAND_REGISTER_RAW, Command::DISABLE_KEYBOARD_INTERFACE),
        (COMMAND_REGISTER_RAW, CommandReturnData::READ_CONTROLLER_COMMAND_BYTE),
        (COMMAND_REGISTER_RAW, CommandWaitData::WRITE_CONTROLLER_COMMAND_BYTE),
        (DATA_PORT_RAW, irq_bits_cleared(raw)),
    ]
}

/// The interface test commands run for the selected devices, in order.
pub open spec fn interface_test_writes(devices: EnableDevice) -> Seq<(u16, u8)> {
    match devices {
        EnableDevice::Keyboard => seq![
            (COMMAND_REGISTER_RAW, CommandReturnData::KEYBOARD_INTERFACE_TEST),
        ],
        EnableDevice::AuxiliaryDevice => seq![
            (COMMAND_REGISTER_RAW, CommandReturnData::AUXILIARY_DEVICE_INTERFACE_TEST),
        ],
        EnableDevice::KeyboardAndAuxiliaryDevice => seq![
            (COMMAND_REGISTER_RAW, CommandReturnData::KEYBOARD_INTERFACE_TEST),
            (COMMAND_REGISTER_RAW, CommandReturnData::AUXILIARY_DEVICE_INTERFACE_TEST),
        ],
    }
}

/// The commands that turn on the selected interfaces, in order.
pub open spec fn enable_interface_writes(devices: EnableDevice) -> Seq<(u16, u8)> {
    match devices {
        EnableDevice::Keyboard => seq![(COMMAND_REGISTER_RAW, Command::ENABLE_KEYBOARD_INTERFACE)],
        EnableDevice::AuxiliaryDevice => seq![
            (COMMAND_REGISTER_RAW, Command::ENABLE_AUXILIARY_DEVICE_INTERFACE),
        ],
        EnableDevice::KeyboardAndAuxiliaryDevice => seq![
            (COMMAND_REGISTER_RAW, Command::ENABLE_KEYBOARD_INTERFACE),
            (COMMAND_REGISTER_RAW, Command::ENABLE_AUXILIARY_DEVICE_INTERFACE),
        ],
    }
}

/// A raw command byte with the interrupt enable bits of exactly the
/// selected devices set and every other defined bit preserved.
pub open spec fn irq_bits_set(raw: u8, devices: EnableDevice) -> u8 {
    match devices {
        EnableDevice::Keyboard => (raw & COMMAND_BYTE_ALL_BITS)
            | COMMAND_BYTE_ENABLE_KEYBOARD_INTERRUPT,
        EnableDevice::AuxiliaryDevice => (raw & COMMAND_BYTE_ALL_BITS)
            | COMMAND_BYTE_ENABLE_AUXILIARY_INTERRUPT,
        EnableDevice::KeyboardAndAuxiliaryDevice => ((raw & COMMAND_BYTE_ALL_BITS)
            | COMMAND_BYTE_ENABLE_KEYBOARD_INTERRUPT) | COMMAND_BYTE_ENABLE_AUXILIARY_INTERRUPT,
    }
}

/// The exact writes of the command byte rewrite that turns on the selected
/// interrupt bits, when the byte read back was `raw`.
pub open spec fn interrupt_rewrite_writes(raw: u8, devices: EnableDevice) -> Seq<(u16, u8)> {
    seq![
        (COMMAND_REGISTER_RAW, CommandReturnData::READ_CONTROLLER_COMMAND_BYTE),
        (COMMAND_REGISTER_RAW, CommandWaitData::WRITE_CONTROLLER_COMMAND_BYTE),
        (DATA_PORT_RAW, irq_bits_set(raw, devices)),
    ]
}

/// One response stands between the two data read traces.
pub open spec fn one_reply(d0: Seq<u8>, d1: Seq<u8>, v: u8) -> bool {
    responded_seq(d0, d1, seq![v])
}

/// Two responses stand between the two data read traces, in order.
pub open spec fn two_replies(d0: Seq<u8>, d1: Seq<u8>, v1: u8, v2: u8) -> bool {
    responded_seq(d0, d1, seq![v1, v2])
}

/// Three responses stand between the two data read traces, in order.
pub open spec fn three_replies(d0: Seq<u8>, d1: Seq<u8>, v1: u8, v2: u8, v3: u8) -> bool {
    responded_seq(d0, d1, seq![v1, v2, v3])
}

/// Every selected interface test was answered and passed: the reply bytes
/// stand between the two data read traces, in test order, and each decodes
/// to success.
pub open spec fn tests_passed_replies(devices: EnableDevice, d0: Seq<u8>, d1: Seq<u8>) -> bool {
    match devices {
        EnableDevice::Keyboard => exists|v: u8|
            #[trigger] one_reply(d0, d1, v) && DeviceInterfaceError::spec_from_test_result(
                v,
            ) is Ok,
        EnableDevice::AuxiliaryDevice => exists|v: u8|
            #[trigger] one_reply(d0, d1, v) && DeviceInterfaceError::spec_from_test_result(
                v,
            ) is Ok,
        EnableDevice::KeyboardAndAuxiliaryDevice => exists|v1: u8, v2: u8|
            #[trigger] two_replies(d0, d1, v1, v2)
                && DeviceInterfaceError::spec_from_test_result(v1) is Ok
                && DeviceInterfaceError::spec_from_test_result(v2) is Ok,
    }
}

/// As [`tests_passed_replies`], with one further response after the test
/// replies: the command byte that the interrupt rewrite read back.
pub open spec fn tests_passed_replies_then(
    devices: EnableDevice,
    d0: Seq<u8>,
    d1: Seq<u8>,
    last: u8,
) -> bool {
    match devices {
        EnableDevice::Keyboard => exists|v: u8|
            #[trigger] two_replies(d0, d1, v, last)
                && DeviceInterfaceError::spec_from_test_result(v) is Ok,
        EnableDevice::AuxiliaryDevice => exists|v: u8|
            #[trigger] two_replies(d0, d1, v, last)
                && DeviceInterfaceError::spec_from_test_result(v) is Ok,
        EnableDevice::KeyboardAndAuxiliaryDevice => exists|v1: u8, v2: u8|
            #[trigger] three_replies(d0, d1, v1, v2, last)
                && DeviceInterfaceError::spec_from_test_result(v1) is Ok
                && DeviceInterfaceError::spec_from_test_result(v2) is Ok,
    }
}

/// The reply `v1` stands first among the data reads between the two
/// traces, possibly followed by one more byte: a second test's reply, or a
/// stale byte drained by a second test that then timed out.
pub open spec fn first_reply(d0: Seq<u8>, d1: Seq<u8>, v1: u8) -> bool {
    ||| one_reply(d0, d1, v1)
    ||| exists|v2: u8| #[trigger] two_replies(d0, d1, v1, v2)
}

/// How an enable transition failed.  A test failure that is not a timeout
/// pins the writes to the test commands alone — no enable command was
/// sent, no partial state leaks — and pins the error to the decoded reply
/// byte.  A timeout pins nothing beyond the guarded trace.
pub open spec fn enable_failure(
    devices: EnableDevice,
    e: InterfaceError,
    w0: Seq<(u16, u8)>,
    w1: Seq<(u16, u8)>,
    d0: Seq<u8>,
    d1: Seq<u8>,
) -> bool {
    match e {
        InterfaceError::Keyboard(ke) => {
            &&& devices is Keyboard || devices is KeyboardAndAuxiliaryDevice
            &&& (ke != DeviceInterfaceError::Timeout ==> (match devices {
                EnableDevice::Keyboard => w1 == w0 + interface_test_writes(devices) && exists|
                    v: u8,
                |
                    #[trigger] one_reply(d0, d1, v) && (
                    DeviceInterfaceError::spec_from_test_result(v) matches Err(de) && de == ke),
                EnableDevice::KeyboardAndAuxiliaryDevice => (w1 == w0 + seq![
                    (COMMAND_REGISTER_RAW, CommandReturnData::KEYBOARD_INTERFACE_TEST),
                ] || w1 == w0 + interface_test_writes(devices)) && exists|v1: u8|
                    #[trigger] first_reply(d0, d1, v1) && (
                    DeviceInterfaceError::spec_from_test_result(v1) matches Err(de) && de == ke),
                _ => false,
            }))
        },
        InterfaceError::AuxiliaryDevice(ae) => {
            &&& devices is AuxiliaryDevice || devices is KeyboardAndAuxiliaryDevice
            &&& (ae != DeviceInterfaceError::Timeout ==> (match devices {
                EnableDevice::AuxiliaryDevice => w1 == w0 + interface_test_writes(devices)
                    && exists|v: u8|
                    #[trigger] one_reply(d0, d1, v) && (
                    DeviceInterfaceError::spec_from_test_result(v) matches Err(de) && de == ae),
                EnableDevice::KeyboardAndAuxiliaryDevice => w1 == w0 + interface_test_writes(
                    devices,
                ) && exists|v1: u8, v2: u8|
                    #[trigger] two_replies(d0, d1, v1, v2)
                        && DeviceInterfaceError::spec_from_test_result(v1) is Ok && (
                    DeviceInterfaceError::spec_from_test_result(v2) matches Err(de) && de == ae),
                _ => false,
            }))
        },
        InterfaceError::Timeout => true,
    }
}

/// The transient entry point of the state machine: initialization starts
/// here and yields a [`DevicesDisabled`] controller.
pub struct InitController<T: PortIO>(T);

impl<T: PortIO> InitController<T> {
    /// You should disable interrupts before starting the initialization
    /// process.
    ///
    /// Disables both device interfaces, reads the command byte, clears both
    /// interrupt enable bits and writes it back.  On a timeout the port is
    /// handed back; the controller state is then unknown.
    pub fn start_init(port_io: T) -> (r: Result<DevicesDisabled<T>, (T, WaitTimeout)>)
        ensures
            r matches Ok(c) ==> guarded_extension(port_io.log(), c.io_log()) && exists|raw: u8|
                writes_of(c.io_log()) == writes_of(port_io.log()) + #[trigger] start_init_writes(
                    raw,
                ) && responded(data_reads_of(port_io.log()), data_reads_of(c.io_log()), raw),
            r matches Err((p, _)) ==> guarded_extension(port_io.log(), p.log()),
    {
        let ghost pre = port_io.log();
        let mut controller = DevicesDisabled(port_io);
        match send_controller_command_and_wait_processing(
            &mut controller.0,
            Command::DISABLE_AUXILIARY_DEVICE_INTERFACE,
        ) {
            Ok(()) => {},
            Err(t) => {
                return Err((controller.0, t));
            },
        }
        let ghost l1 = controller.0.log();
        match send_controller_command_and_wait_processing(
            &mut controller.0,
            Command::DISABLE_KEYBOARD_INTERFACE,
        ) {
            Ok(()) => {},
            Err(t) => {
                proof {
                    lemma_guarded_trans(pre, l1, controller.0.log());
                }
                return Err((controller.0, t));
            },
        }
        let ghost l2 = controller.0.log();
        proof {
            lemma_guarded_trans(pre, l1, l2);
        }
        let raw = match send_controller_command_and_wait_response(
            &mut controller.0,
            CommandReturnData::READ_CONTROLLER_COMMAND_BYTE,
        ) {
            Ok(v) => v,
            Err(t) => {
                proof {
                    lemma_guarded_trans(pre, l2, controller.0.log());
                }
                return Err((controller.0, t));
            },
        };
        let ghost l3 = controller.0.log();
        proof {
            lemma_guarded_trans(pre, l2, l3);
        }
        let mut command_byte = ControllerCommandByte::from_bits_truncate(raw);
        command_byte.set(COMMAND_BYTE_ENABLE_AUXILIARY_INTERRUPT, false);
        command_byte.set(COMMAND_BYTE_ENABLE_KEYBOARD_INTERRUPT, false);
        match write_controller_command_byte(&mut controller.0, command_byte) {
            Ok(()) => {},
            Err(t) => {
                proof {
                    lemma_guarded_trans(pre, l3, controller.0.log());
                }
                return Err((controller.0, t));
            },
        }
        proof {
            lemma_guarded_trans(pre, l3, controller.0.log());
            assert(command_byte.spec_bits() == irq_bits_cleared(raw));
            assert(writes_of(controller.0.log()) =~= writes_of(pre) + start_init_writes(raw));
        }
        Ok(controller)
    }
}

/// Both device interfaces off, interrupts off: the configuration state of
/// the controller.
pub struct DevicesDisabled<T: PortIO>(T);

impl<T: PortIO> DevicesDisabled<T> {
    /// The port trace of this handle.
    pub closed spec fn io_log(&self) -> Seq<PortOp> {
        self.0.log()
    }

    /// Reads and decodes the status register once.
    pub fn status(&mut self) -> (r: StatusInfo)
        ensures
            final(self).io_log() == old(self).io_log().push(
                PortOp::Read { port: STATUS_REGISTER_RAW, value: r.spec_bits() },
            ),
    {
        read_status(&mut self.0)
    }

    /// Releases the port.  The controller is left as it is.
    pub fn into_port_io(self) -> (r: T)
        ensures
            r.log() == self.io_log(),
    {
        self.0
    }

    /// Reads the controller command byte.  The result's bits are the reply
    /// byte with the undefined bits dropped.
    pub fn controller_command_byte(&mut self) -> (r: Result<ControllerCommandByte, WaitTimeout>)
        ensures
            guarded_extension(old(self).io_log(), final(self).io_log()),
            r matches Ok(cb) ==> writes_of(final(self).io_log()) == writes_of(
                old(self).io_log(),
            ).push((COMMAND_REGISTER_RAW, CommandReturnData::READ_CONTROLLER_COMMAND_BYTE))
                && exists|raw: u8|
                #[trigger] responded(
                    data_reads_of(old(self).io_log()),
                    data_reads_of(final(self).io_log()),
                    raw,
                ) && cb.spec_bits() == raw & COMMAND_BYTE_ALL_BITS,
            r is Err ==> (writes_of(final(self).io_log()) == writes_of(old(self).io_log())
                || writes_of(final(self).io_log()) == writes_of(old(self).io_log()).push(
                (COMMAND_REGISTER_RAW, CommandReturnData::READ_CONTROLLER_COMMAND_BYTE),
            )) && (data_reads_of(final(self).io_log()) == data_reads_of(old(self).io_log())
                || exists|b: u8|
                data_reads_of(final(self).io_log()) == #[trigger] data_reads_of(
                    old(self).io_log(),
                ).push(b)),
    {
        match send_controller_command_and_wait_response(
            &mut self.0,
            CommandReturnData::READ_CONTROLLER_COMMAND_BYTE,
        ) {
            Ok(raw) => {
                let cb = ControllerCommandByte::from_bits_truncate(raw);
                proof {
                    assert(responded(
                        data_reads_of(old(self).io_log()),
                        data_reads_of(self.io_log()),
                        raw,
                    ));
                }
                Ok(cb)
            },
            Err(t) => Err(t),
        }
    }

    /// Turns scancode translation on or off by rewriting the translate bit
    /// of the command byte.
    pub fn scancode_translation(&mut self, enabled: bool) -> (r: Result<(), WaitTimeout>)
        ensures
            guarded_extension(old(self).io_log(), final(self).io_log()),
            r is Ok ==> exists|raw: u8|
                writes_of(final(self).io_log()) == writes_of(old(self).io_log())
                    + #[trigger] scancode_translation_writes(raw, enabled) && responded(
                    data_reads_of(old(self).io_log()),
                    data_reads_of(final(self).io_log()),
                    raw,
                ),
            r is Err ==> writes_of(final(self).io_log()) == writes_of(old(self).io_log())
                || writes_of(final(self).io_log()) == writes_of(old(self).io_log()).push(
                (COMMAND_REGISTER_RAW, CommandReturnData::READ_CONTROLLER_COMMAND_BYTE),
            ) || writes_of(final(self).io_log()) == writes_of(old(self).io_log()).push(
                (COMMAND_REGISTER_RAW, CommandReturnData::READ_CONTROLLER_COMMAND_BYTE),
            ).push((COMMAND_REGISTER_RAW, CommandWaitData::WRITE_CONTROLLER_COMMAND_BYTE)),
    {
        let ghost pre = self.io_log();
        let cb0 = match self.controller_command_byte() {
            Ok(c) => c,
            Err(t) => {
                return Err(t);
            },
        };
        let ghost l1 = self.io_log();
        let ghost raw = choose|x: u8|
            #[trigger] responded(data_reads_of(pre), data_reads_of(l1), x) && cb0.spec_bits() == x
                & COMMAND_BYTE_ALL_BITS;
        let mut command_byte = cb0;
        command_byte.set(COMMAND_BYTE_KEYBOARD_TRANSLATE_MODE, enabled);
        match write_controller_command_byte(&mut self.0, command_byte) {
            Ok(()) => {},
            Err(t) => {
                proof {
                    lemma_guarded_trans(pre, l1, self.io_log());
                }
                return Err(t);
            },
        }
        proof {
            lemma_guarded_trans(pre, l1, self.io_log());
            assert(command_byte.spec_bits() == translate_mode_bits(raw, enabled));
            assert(writes_of(self.io_log()) =~= writes_of(pre) + scancode_translation_writes(
                raw,
                enabled,
            ));
        }
        Ok(())
    }

    /// Runs the controller self test.  The command byte is saved first and
    /// written back afterwards, because the self test may reset the
    /// controller; success is the reply `0x55`.
    pub fn self_test(&mut self) -> (r: Result<(), SelfTestError>)
        ensures
            guarded_extension(old(self).io_log(), final(self).io_log()),
            !(r matches Err(SelfTestError::Timeout)) ==> exists|raw: u8, result: u8|
                #[trigger] responded_twice(
                    data_reads_of(old(self).io_log()),
                    data_reads_of(final(self).io_log()),
                    raw,
                    result,
                ) && writes_of(final(self).io_log()) == writes_of(old(self).io_log())
                    + self_test_writes(raw) && (r is Ok <==> result == 0x55),
            r matches Err(SelfTestError::Failed(b)) ==> b != 0x55,
            r matches Err(SelfTestError::Timeout) ==> writes_of(final(self).io_log()) == writes_of(
                old(self).io_log(),
            ) || writes_of(final(self).io_log()) == writes_of(old(self).io_log()).push(
                (COMMAND_REGISTER_RAW, CommandReturnData::READ_CONTROLLER_COMMAND_BYTE),
            ) || writes_of(final(self).io_log()) == writes_of(old(self).io_log()).push(
                (COMMAND_REGISTER_RAW, CommandReturnData::READ_CONTROLLER_COMMAND_BYTE),
            ).push((COMMAND_REGISTER_RAW, CommandReturnData::SELF_TEST)) || writes_of(
                final(self).io_log(),
            ) == writes_of(old(self).io_log()).push(
                (COMMAND_REGISTER_RAW, CommandReturnData::READ_CONTROLLER_COMMAND_BYTE),
            ).push((COMMAND_REGISTER_RAW, CommandReturnData::SELF_TEST)).push(
                (COMMAND_REGISTER_RAW, CommandWaitData::WRITE_CONTROLLER_COMMAND_BYTE),
            ),
    {
        let ghost pre = self.io_log();
        let command_byte = match self.controller_command_byte() {
            Ok(c) => c,
            Err(_) => {
                return Err(SelfTestError::Timeout);
            },
        };
        let ghost l1 = self.io_log();
        let ghost raw = choose|x: u8|
            #[trigger] responded(data_reads_of(pre), data_reads_of(l1), x)
                && command_byte.spec_bits() == x & COMMAND_BYTE_ALL_BITS;
        let result = match send_controller_command_and_wait_response(
            &mut self.0,
            CommandReturnData::SELF_TEST,
        ) {
            Ok(v) => v,
            Err(_) => {
                proof {
                    lemma_guarded_trans(pre, l1, self.io_log());
                }
                return Err(SelfTestError::Timeout);
            },
        };
        let ghost l2 = self.io_log();
        proof {
            lemma_guarded_trans(pre, l1, l2);
        }
        match write_controller_command_byte(&mut self.0, command_byte) {
            Ok(()) => {},
            Err(_) => {
                proof {
                    lemma_guarded_trans(pre, l2, self.io_log());
                }
                return Err(SelfTestError::Timeout);
            },
        }
        proof {
            lemma_guarded_trans(pre, l2, self.io_log());
            assert(writes_of(self.io_log()) =~= writes_of(pre) + self_test_writes(raw));
            assert(responded(data_reads_of(pre), data_reads_of(l1), raw));
            assert(responded(data_reads_of(l1), data_reads_of(self.io_log()), result));
            assert(responded_twice(data_reads_of(pre), data_reads_of(self.io_log()), raw, result));
        }
        if result == 0x55 {
            Ok(())
        } else {
            Err(SelfTestError::Failed(result))
        }
    }

    /// Tests the keyboard interface lines; the reply byte is decoded by
    /// [`DeviceInterfaceError::from_test_result`].
    pub fn keyboard_interface_test(&mut self) -> (r: Result<(), DeviceInterfaceError>)
        ensures
            guarded_extension(old(self).io_log(), final(self).io_log()),
            !(r matches Err(DeviceInterfaceError::Timeout)) ==> writes_of(final(self).io_log())
                == writes_of(old(self).io_log()).push(
                (COMMAND_REGISTER_RAW, CommandReturnData::KEYBOARD_INTERFACE_TEST),
            ) && exists|v: u8|
                #[trigger] responded(
                    data_reads_of(old(self).io_log()),
                    data_reads_of(final(self).io_log()),
                    v,
                ) && r == DeviceInterfaceError::spec_from_test_result(v),
            r matches Err(DeviceInterfaceError::Timeout) ==> (writes_of(final(self).io_log())
                == writes_of(old(self).io_log()) || writes_of(final(self).io_log()) == writes_of(
                old(self).io_log(),
            ).push((COMMAND_REGISTER_RAW, CommandReturnData::KEYBOARD_INTERFACE_TEST))) && (
            data_reads_of(final(self).io_log()) == data_reads_of(old(self).io_log()) || exists|
                b: u8,
            | data_reads_of(final(self).io_log()) == #[trigger] data_reads_of(
                old(self).io_log(),
            ).push(b)),
    {
        match send_controller_command_and_wait_response(
            &mut self.0,
            CommandReturnData::KEYBOARD_INTERFACE_TEST,
        ) {
            Ok(v) => DeviceInterfaceError::from_test_result(v),
            Err(_) => Err(DeviceInterfaceError::Timeout),
        }
    }

    /// Tests the auxiliary device interface lines.
    pub fn auxiliary_device_interface_test(&mut self) -> (r: Result<(), DeviceInterfaceError>)
        ensures
            guarded_extension(old(self).io_log(), final(self).io_log()),
            !(r matches Err(DeviceInterfaceError::Timeout)) ==> writes_of(final(self).io_log())
                == writes_of(old(self).io_log()).push(
                (COMMAND_REGISTER_RAW, CommandReturnData::AUXILIARY_DEVICE_INTERFACE_TEST),
            ) && exists|v: u8|
                #[trigger] responded(
                    data_reads_of(old(self).io_log()),
                    data_reads_of(final(self).io_log()),
                    v,
                ) && r == DeviceInterfaceError::spec_from_test_result(v),
            r matches Err(DeviceInterfaceError::Timeout) ==> (writes_of(final(self).io_log())
                == writes_of(old(self).io_log()) || writes_of(final(self).io_log()) == writes_of(
                old(self).io_log(),
            ).push((COMMAND_REGISTER_RAW, CommandReturnData::AUXILIARY_DEVICE_INTERFACE_TEST))) && (
            data_reads_of(final(self).io_log()) == data_reads_of(old(self).io_log()) || exists|
                b: u8,
            | data_reads_of(final(self).io_log()) == #[trigger] data_reads_of(
                old(self).io_log(),
            ).push(b)),
    {
        match send_controller_command_and_wait_response(
            &mut self.0,
            CommandReturnData::AUXILIARY_DEVICE_INTERFACE_TEST,
        ) {
            Ok(v) => DeviceInterfaceError::from_test_result(v),
            Err(_) => Err(DeviceInterfaceError::Timeout),
        }
    }

    /// Reads the whole reachable controller RAM into `data`, one byte per
    /// RAM read command: on success `data` holds exactly the controller's
    /// responses, in command order.  After a timeout only a prefix of
    /// `data` was overwritten.
    #[verifier::loop_isolation(false)]
    pub fn ram(&mut self, data: &mut [u8; CONTROLLER_RAM_SIZE]) -> (r: Result<(), WaitTimeout>)
        ensures
            guarded_extension(old(self).io_log(), final(self).io_log()),
            r is Err ==> exists|n: int|
                0 <= n <= CONTROLLER_RAM_SIZE && writes_of(final(self).io_log()) == writes_of(
                    old(self).io_log(),
                ) + #[trigger] ram_read_commands(n),
            r is Ok ==> writes_of(final(self).io_log()) == writes_of(old(self).io_log())
                + ram_read_commands(CONTROLLER_RAM_SIZE as int) && exists|marks: Seq<Seq<u8>>|
                #[trigger] response_chain(marks, final(data)@, CONTROLLER_RAM_SIZE as int)
                    && marks[0] == data_reads_of(old(self).io_log()) && marks[
                    CONTROLLER_RAM_SIZE as int
                ] == data_reads_of(final(self).io_log()),
    {
        let ghost pre = self.io_log();
        let ghost mut marks: Seq<Seq<u8>> = seq![data_reads_of(pre)];
        proof {
            lemma_guarded_refl(pre);
            assert(writes_of(pre) + ram_read_commands(0) =~= writes_of(pre));
        }
        let mut i: usize = 0;
        while i < CONTROLLER_RAM_SIZE
            invariant
                i <= CONTROLLER_RAM_SIZE,
                guarded_extension(pre, self.io_log()),
                writes_of(self.io_log()) == writes_of(pre) + ram_read_commands(i as int),
                marks.len() == i + 1,
                marks[0] == data_reads_of(pre),
                marks[i as int] == data_reads_of(self.io_log()),
                forall|k: int|
                    0 <= k < i ==> #[trigger] responded(marks[k], marks[k + 1], data@[k]),
            decreases CONTROLLER_RAM_SIZE - i,
        {
            let ghost lb = self.io_log();
            let ghost marks_before = marks;
            let ghost values_before = data@;
            let command = CommandReturnData::READ_RAM_START + (i as u8);
            let value = match send_controller_command_and_wait_response(&mut self.0, command) {
                Ok(v) => v,
                Err(t) => {
                    proof {
                        lemma_guarded_trans(pre, lb, self.io_log());
                        if writes_of(self.io_log()) == writes_of(lb) {
                            assert(writes_of(self.io_log()) == writes_of(pre) + ram_read_commands(
                                i as int,
                            ));
                        } else {
                            assert(writes_of(self.io_log()) =~= writes_of(pre) + ram_read_commands(
                                i as int + 1,
                            ));
                        }
                    }
                    return Err(t);
                },
            };
            data[i] = value;
            proof {
                marks = marks.push(data_reads_of(self.io_log()));
                lemma_guarded_trans(pre, lb, self.io_log());
                assert(writes_of(self.io_log()) =~= writes_of(pre) + ram_read_commands(
                    i as int + 1,
                ));
                assert forall|k: int| 0 <= k < i + 1 implies #[trigger] responded(
                    marks[k],
                    marks[k + 1],
                    data@[k],
                ) by {
                    if k < i {
                        assert(marks[k] == marks_before[k]);
                        assert(marks[k + 1] == marks_before[k + 1]);
                        assert(data@[k] == values_before[k]);
                        assert(responded(marks_before[k], marks_before[k + 1], values_before[k]));
                    } else {
                        assert(marks[k] == data_reads_of(lb));
                        assert(marks[k + 1] == data_reads_of(self.io_log()));
                        assert(data@[k] == value);
                    }
                }
            }
            i = i + 1;
        }
        proof {
            assert(response_chain(marks, data@, CONTROLLER_RAM_SIZE as int));
        }
        Ok(())
    }

    /// Writes `data` into the reachable controller RAM, one byte per RAM
    /// write command.
    #[verifier::loop_isolation(false)]
    pub fn write_ram(&mut self, data: &[u8; CONTROLLER_RAM_SIZE]) -> (r: Result<(), WaitTimeout>)
        ensures
            guarded_extension(old(self).io_log(), final(self).io_log()),
            r is Ok ==> writes_of(final(self).io_log()) == writes_of(old(self).io_log())
                + ram_write_commands(data@, CONTROLLER_RAM_SIZE as int),
            r is Err ==> exists|n: int|
                0 <= n <= CONTROLLER_RAM_SIZE && (writes_of(final(self).io_log()) == writes_of(
                    old(self).io_log(),
                ) + #[trigger] ram_write_commands(data@, n) || writes_of(final(self).io_log())
                    == writes_of(old(self).io_log()) + ram_write_commands(data@, n).push(
                    (COMMAND_REGISTER_RAW, ((CommandWaitData::WRITE_RAM_START as int) + n) as u8),
                )),
    {
        let ghost pre = self.io_log();
        proof {
            lemma_guarded_refl(pre);
            assert(writes_of(pre) + ram_write_commands(data@, 0) =~= writes_of(pre));
        }
        let mut i: usize = 0;
        while i < CONTROLLER_RAM_SIZE
            invariant
                i <= CONTROLLER_RAM_SIZE,
                guarded_extension(pre, self.io_log()),
                writes_of(self.io_log()) == writes_of(pre) + ram_write_commands(data@, i as int),
            decreases CONTROLLER_RAM_SIZE - i,
        {
            let ghost lb = self.io_log();
            let command = CommandWaitData::WRITE_RAM_START + (i as u8);
            match send_controller_command_and_write_data(&mut self.0, command, data[i]) {
                Ok(()) => {},
                Err(t) => {
                    proof {
                        lemma_guarded_trans(pre, lb, self.io_log());
                        if writes_of(self.io_log()) == writes_of(lb) {
                            assert(writes_of(self.io_log()) == writes_of(pre) + ram_write_commands(
                                data@,
                                i as int,
                            ));
                        } else {
                            assert(writes_of(self.io_log()) =~= writes_of(pre) + ram_write_commands(
                                data@,
                                i as int,
                            ).push(
                                (
                                    COMMAND_REGISTER_RAW,
                                    ((CommandWaitData::WRITE_RAM_START as int) + i) as u8,
                                ),
                            ));
                        }
                    }
                    return Err(t);
                },
            }
            proof {
                lemma_guarded_trans(pre, lb, self.io_log());
                assert(writes_of(self.io_log()) =~= writes_of(pre) + ram_write_commands(
                    data@,
                    i as int + 1,
                ));
            }
            i = i + 1;
        }
        Ok(())
    }

    /// Pulses the CPU reset line of the output port.
    pub fn reset_cpu(&mut self) -> (r: Result<(), WaitTimeout>)
        ensures
            guarded_extension(old(self).io_log(), final(self).io_log()),
            data_reads_of(final(self).io_log()) == data_reads_of(old(self).io_log()),
            r is Ok ==> writes_of(final(self).io_log()) == writes_of(old(self).io_log()).push(
                (COMMAND_REGISTER_RAW, Command::PULSE_OUTPUT_PORT_START | 0x0E),
            ),
            r is Err ==> writes_of(final(self).io_log()) == writes_of(old(self).io_log())
                || writes_of(final(self).io_log()) == writes_of(old(self).io_log()).push(
                (COMMAND_REGISTER_RAW, Command::PULSE_OUTPUT_PORT_START | 0x0E),
            ),
    {
        send_controller_command_and_wait_processing(
            &mut self.0,
            Command::PULSE_OUTPUT_PORT_START | 0x0E,
        )
    }
}

impl<T: PortIO> DevicesDisabled<T> {
    /// Runs the interface test for each selected device; on success enables
    /// exactly the selected interfaces and yields a runtime handle with
    /// interrupts off, leaving the command byte's interrupt bits untouched.
    /// On a test failure the handle comes back with the error decoded from
    /// the reply byte, and no enable command was sent: no partial state
    /// leaks.
    pub fn enable_devices(self, devices: EnableDevice) -> (r: Result<
        EnabledDevices<T, marker::Disabled>,
        (Self, InterfaceError),
    >)
        ensures
            r matches Ok(en) ==> guarded_extension(self.io_log(), en.io_log())
                && en.spec_devices() == devices && writes_of(en.io_log()) == writes_of(
                self.io_log(),
            ) + interface_test_writes(devices) + enable_interface_writes(devices)
                && tests_passed_replies(
                devices,
                data_reads_of(self.io_log()),
                data_reads_of(en.io_log()),
            ),
            r matches Err((orig, e)) ==> guarded_extension(self.io_log(), orig.io_log())
                && enable_failure(
                devices,
                e,
                writes_of(self.io_log()),
                writes_of(orig.io_log()),
                data_reads_of(self.io_log()),
                data_reads_of(orig.io_log()),
            ),
    {
        let ghost pre = self.io_log();
        let mut this = self;
        match this.test_devices(devices) {
            Ok(()) => {
                let ghost l1 = this.io_log();
                match this.configure::<marker::Disabled>(devices, false) {
                    Ok(en) => {
                        proof {
                            lemma_guarded_trans(pre, l1, en.io_log());
                            assert(writes_of(en.io_log()) =~= writes_of(pre)
                                + interface_test_writes(devices) + enable_interface_writes(
                                devices,
                            ));
                        }
                        Ok(en)
                    },
                    Err((orig, e)) => {
                        proof {
                            lemma_guarded_trans(pre, l1, orig.io_log());
                        }
                        Err((orig, e))
                    },
                }
            },
            Err(e) => Err((this, e)),
        }
    }

    /// As [`Self::enable_devices`], but afterwards also reads the command
    /// byte and writes it back with the interrupt enable bits of exactly
    /// the selected devices set.
    pub fn enable_devices_and_interrupts(self, devices: EnableDevice) -> (r: Result<
        EnabledDevices<T, marker::InterruptsEnabled>,
        (Self, InterfaceError),
    >)
        ensures
            r matches Ok(en) ==> guarded_extension(self.io_log(), en.io_log())
                && en.spec_devices() == devices && exists|raw: u8|
                writes_of(en.io_log()) == writes_of(self.io_log()) + interface_test_writes(devices)
                    + enable_interface_writes(devices) + #[trigger] interrupt_rewrite_writes(
                    raw,
                    devices,
                ) && tests_passed_replies_then(
                    devices,
                    data_reads_of(self.io_log()),
                    data_reads_of(en.io_log()),
                    raw,
                ),
            r matches Err((orig, e)) ==> guarded_extension(self.io_log(), orig.io_log())
                && enable_failure(
                devices,
                e,
                writes_of(self.io_log()),
                writes_of(orig.io_log()),
                data_reads_of(self.io_log()),
                data_reads_of(orig.io_log()),
            ),
    {
        let ghost pre = self.io_log();
        let mut this = self;
        match this.test_devices(devices) {
            Ok(()) => {
                let ghost l1 = this.io_log();
                match this.configure::<marker::InterruptsEnabled>(devices, true) {
                    Ok(en) => {
                        proof {
                            lemma_guarded_trans(pre, l1, en.io_log());
                            let d0 = data_reads_of(pre);
                            let d1 = data_reads_of(l1);
                            let dfin = data_reads_of(en.io_log());
                            let raw = choose|x: u8|
                                writes_of(en.io_log()) == writes_of(l1) + enable_interface_writes(
                                    devices,
                                ) + #[trigger] interrupt_rewrite_writes(x, devices) && responded(
                                    d1,
                                    dfin,
                                    x,
                                );
                            assert(writes_of(en.io_log()) =~= writes_of(pre)
                                + interface_test_writes(devices) + enable_interface_writes(devices)
                                + interrupt_rewrite_writes(raw, devices));
                            match devices {
                                EnableDevice::Keyboard => {
                                    let v = choose|v: u8|
                                        #[trigger] one_reply(d0, d1, v)
                                            && DeviceInterfaceError::spec_from_test_result(
                                            v,
                                        ) is Ok;
                                    lemma_responded_seq_push(d0, d1, dfin, seq![v], raw);
                                    assert(seq![v].push(raw) =~= seq![v, raw]);
                                    assert(two_replies(d0, dfin, v, raw));
                                },
                                EnableDevice::AuxiliaryDevice => {
                                    let v = choose|v: u8|
                                        #[trigger] one_reply(d0, d1, v)
                                            && DeviceInterfaceError::spec_from_test_result(
                                            v,
                                        ) is Ok;
                                    lemma_responded_seq_push(d0, d1, dfin, seq![v], raw);
                                    assert(seq![v].push(raw) =~= seq![v, raw]);
                                    assert(two_replies(d0, dfin, v, raw));
                                },
                                EnableDevice::KeyboardAndAuxiliaryDevice => {
                                    let (v1, v2) = choose|v1: u8, v2: u8|
                                        #[trigger] two_replies(d0, d1, v1, v2)
                                            && DeviceInterfaceError::spec_from_test_result(
                                            v1,
                                        ) is Ok && DeviceInterfaceError::spec_from_test_result(
                                            v2,
                                        ) is Ok;
                                    lemma_responded_seq_push(d0, d1, dfin, seq![v1, v2], raw);
                                    assert(seq![v1, v2].push(raw) =~= seq![v1, v2, raw]);
                                    assert(three_replies(d0, dfin, v1, v2, raw));
                                },
                            }
                        }
                        Ok(en)
                    },
                    Err((orig, e)) => {
                        proof {
                            lemma_guarded_trans(pre, l1, orig.io_log());
                        }
                        Err((orig, e))
                    },
                }
            },
            Err(e) => Err((this, e)),
        }
    }

    /// Runs the interface tests selected by `devices`.
    fn test_devices(&mut self, devices: EnableDevice) -> (r: Result<(), InterfaceError>)
        ensures
            guarded_extension(old(self).io_log(), final(self).io_log()),
            r is Ok ==> writes_of(final(self).io_log()) == writes_of(old(self).io_log())
                + interface_test_writes(devices) && tests_passed_replies(
                devices,
                data_reads_of(old(self).io_log()),
                data_reads_of(final(self).io_log()),
            ),
            r matches Err(e) ==> !(e is Timeout) && enable_failure(
                devices,
                e,
                writes_of(old(self).io_log()),
                writes_of(final(self).io_log()),
                data_reads_of(old(self).io_log()),
                data_reads_of(final(self).io_log()),
            ),
    {
        match devices {
            EnableDevice::Keyboard => {
                let r = self.test_keyboard();
                proof {
                    let d0 = data_reads_of(old(self).io_log());
                    let d1 = data_reads_of(self.io_log());
                    if !(r matches Err(InterfaceError::Keyboard(DeviceInterfaceError::Timeout))) {
                        let v = choose|v: u8|
                            #[trigger] responded(d0, d1, v) && (
                            match DeviceInterfaceError::spec_from_test_result(v) {
                                Ok(()) => r is Ok,
                                Err(de) => (r matches Err(ie) && ie == InterfaceError::Keyboard(
                                    de,
                                )),
                            });
                        lemma_responded_seq_one(d0, d1, v);
                        assert(one_reply(d0, d1, v));
                        assert(writes_of(self.io_log()) =~= writes_of(old(self).io_log())
                            + interface_test_writes(devices));
                    }
                }
                r
            },
            EnableDevice::AuxiliaryDevice => {
                let r = self.test_auxiliary_device();
                proof {
                    let d0 = data_reads_of(old(self).io_log());
                    let d1 = data_reads_of(self.io_log());
                    if !(r matches Err(
                        InterfaceError::AuxiliaryDevice(DeviceInterfaceError::Timeout),
                    )) {
                        let v = choose|v: u8|
                            #[trigger] responded(d0, d1, v) && (
                            match DeviceInterfaceError::spec_from_test_result(v) {
                                Ok(()) => r is Ok,
                                Err(de) => (r matches Err(ie) && ie
                                    == InterfaceError::AuxiliaryDevice(de)),
                            });
                        lemma_responded_seq_one(d0, d1, v);
                        assert(one_reply(d0, d1, v));
                        assert(writes_of(self.io_log()) =~= writes_of(old(self).io_log())
                            + interface_test_writes(devices));
                    }
                }
                r
            },
            EnableDevice::KeyboardAndAuxiliaryDevice => self.test_keyboard_and_auxiliary_device(),
        }
    }

    /// Runs the auxiliary device interface test, wrapping its failure.
    fn test_auxiliary_device(&mut self) -> (r: Result<(), InterfaceError>)
        ensures
            guarded_extension(old(self).io_log(), final(self).io_log()),
            r matches Err(e) ==> e matches InterfaceError::AuxiliaryDevice(_),
            !(r matches Err(InterfaceError::AuxiliaryDevice(DeviceInterfaceError::Timeout)))
                ==> writes_of(final(self).io_log()) == writes_of(old(self).io_log()).push(
                (COMMAND_REGISTER_RAW, CommandReturnData::AUXILIARY_DEVICE_INTERFACE_TEST),
            ) && exists|v: u8|
                #[trigger] responded(
                    data_reads_of(old(self).io_log()),
                    data_reads_of(final(self).io_log()),
                    v,
                ) && (match DeviceInterfaceError::spec_from_test_result(v) {
                    Ok(()) => r is Ok,
                    Err(de) => (r matches Err(ie) && ie == InterfaceError::AuxiliaryDevice(de)),
                }),
            r matches Err(InterfaceError::AuxiliaryDevice(DeviceInterfaceError::Timeout)) ==> (
            writes_of(final(self).io_log()) == writes_of(old(self).io_log()) || writes_of(
                final(self).io_log(),
            ) == writes_of(old(self).io_log()).push(
                (COMMAND_REGISTER_RAW, CommandReturnData::AUXILIARY_DEVICE_INTERFACE_TEST),
            )) && (data_reads_of(final(self).io_log()) == data_reads_of(old(self).io_log())
                || exists|b: u8|
                data_reads_of(final(self).io_log()) == #[trigger] data_reads_of(
                    old(self).io_log(),
                ).push(b)),
    {
        match self.auxiliary_device_interface_test() {
            Ok(()) => Ok(()),
            Err(e) => Err(InterfaceError::AuxiliaryDevice(e)),
        }
    }

    /// Runs the keyboard interface test, wrapping its failure.
    fn test_keyboard(&mut self) -> (r: Result<(), InterfaceError>)
        ensures
            guarded_extension(old(self).io_log(), final(self).io_log()),
            r matches Err(e) ==> e matches InterfaceError::Keyboard(_),
            !(r matches Err(InterfaceError::Keyboard(DeviceInterfaceError::Timeout))) ==> writes_of(
                final(self).io_log(),
            ) == writes_of(old(self).io_log()).push(
                (COMMAND_REGISTER_RAW, CommandReturnData::KEYBOARD_INTERFACE_TEST),
            ) && exists|v: u8|
                #[trigger] responded(
                    data_reads_of(old(self).io_log()),
                    data_reads_of(final(self).io_log()),
                    v,
                ) && (match DeviceInterfaceError::spec_from_test_result(v) {
                    Ok(()) => r is Ok,
                    Err(de) => (r matches Err(ie) && ie == InterfaceError::Keyboard(de)),
                }),
            r matches Err(InterfaceError::Keyboard(DeviceInterfaceError::Timeout)) ==> (writes_of(
                final(self).io_log(),
            ) == writes_of(old(self).io_log()) || writes_of(final(self).io_log()) == writes_of(
                old(self).io_log(),
            ).push((COMMAND_REGISTER_RAW, CommandReturnData::KEYBOARD_INTERFACE_TEST))) && (
            data_reads_of(final(self).io_log()) == data_reads_of(old(self).io_log()) || exists|
                b: u8,
            | data_reads_of(final(self).io_log()) == #[trigger] data_reads_of(
                old(self).io_log(),
            ).push(b)),
    {
        match self.keyboard_interface_test() {
            Ok(()) => Ok(()),
            Err(e) => Err(InterfaceError::Keyboard(e)),
        }
    }

    /// Runs both interface tests; a keyboard failure is reported first.
    /// Both tests always run, so even a reported keyboard failure may be
    /// followed by the auxiliary test's command and reply.
    fn test_keyboard_and_auxiliary_device(&mut self) -> (r: Result<(), InterfaceError>)
        ensures
            guarded_extension(old(self).io_log(), final(self).io_log()),
            r is Ok ==> writes_of(final(self).io_log()) == writes_of(old(self).io_log())
                + interface_test_writes(EnableDevice::KeyboardAndAuxiliaryDevice)
                && tests_passed_replies(
                EnableDevice::KeyboardAndAuxiliaryDevice,
                data_reads_of(old(self).io_log()),
                data_reads_of(final(self).io_log()),
            ),
            r matches Err(e) ==> !(e is Timeout) && enable_failure(
                EnableDevice::KeyboardAndAuxiliaryDevice,
                e,
                writes_of(old(self).io_log()),
                writes_of(final(self).io_log()),
                data_reads_of(old(self).io_log()),
                data_reads_of(final(self).io_log()),
            ),
    {
        let ghost pre = self.io_log();
        let kbd = self.test_keyboard();
        let ghost l1 = self.io_log();
        let aux = self.test_auxiliary_device();
        let ghost l2 = self.io_log();
        proof {
            lemma_guarded_trans(pre, l1, l2);
            let both = EnableDevice::KeyboardAndAuxiliaryDevice;
            let w0 = writes_of(pre);
            let d0 = data_reads_of(pre);
            let d1 = data_reads_of(l1);
            let d2 = data_reads_of(l2);
            if !(kbd matches Err(InterfaceError::Keyboard(DeviceInterfaceError::Timeout))) {
                let v1 = choose|v: u8|
                    #[trigger] responded(d0, d1, v) && (
                    match DeviceInterfaceError::spec_from_test_result(v) {
                        Ok(()) => kbd is Ok,
                        Err(de) => (kbd matches Err(ie) && ie == InterfaceError::Keyboard(de)),
                    });
                lemma_responded_seq_one(d0, d1, v1);
                if !(aux matches Err(
                    InterfaceError::AuxiliaryDevice(DeviceInterfaceError::Timeout),
                )) {
                    let v2 = choose|v: u8|
                        #[trigger] responded(d1, d2, v) && (
                        match DeviceInterfaceError::spec_from_test_result(v) {
                            Ok(()) => aux is Ok,
                            Err(de) => (aux matches Err(ie) && ie == InterfaceError::AuxiliaryDevice(
                                de,
                            )),
                        });
                    lemma_responded_seq_push(d0, d1, d2, seq![v1], v2);
                    assert(seq![v1].push(v2) =~= seq![v1, v2]);
                    assert(two_replies(d0, d2, v1, v2));
                    assert(first_reply(d0, d2, v1));
                    assert(writes_of(l2) =~= w0 + interface_test_writes(both));
                } else {
                    if d2 == d1 {
                        assert(one_reply(d0, d2, v1));
                    } else {
                        let b = choose|b: u8| d2 == #[trigger] d1.push(b);
                        assert(d2.subrange(0, d1.len() as int) =~= d1);
                        assert(responded(d1, d2, b));
                        lemma_responded_seq_push(d0, d1, d2, seq![v1], b);
                        assert(seq![v1].push(b) =~= seq![v1, b]);
                        assert(two_replies(d0, d2, v1, b));
                    }
                    assert(first_reply(d0, d2, v1));
                    if writes_of(l2) == writes_of(l1) {
                        assert(writes_of(l2) =~= w0 + seq![
                            (COMMAND_REGISTER_RAW, CommandReturnData::KEYBOARD_INTERFACE_TEST),
                        ]);
                    } else {
                        assert(writes_of(l2) =~= w0 + interface_test_writes(both));
                    }
                }
            }
        }
        match kbd {
            Err(e) => Err(e),
            Ok(()) => aux,
        }
    }

    /// Sends the enable command for each selected interface.
    fn enable_interfaces(&mut self, devices: EnableDevice) -> (r: Result<(), WaitTimeout>)
        ensures
            guarded_extension(old(self).io_log(), final(self).io_log()),
            data_reads_of(final(self).io_log()) == data_reads_of(old(self).io_log()),
            r is Ok ==> writes_of(final(self).io_log()) == writes_of(old(self).io_log())
                + enable_interface_writes(devices),
    {
        match devices {
            EnableDevice::Keyboard => {
                let r = send_controller_command_and_wait_processing(
                    &mut self.0,
                    Command::ENABLE_KEYBOARD_INTERFACE,
                );
                proof {
                    if r is Ok {
                        assert(writes_of(self.io_log()) =~= writes_of(old(self).io_log())
                            + enable_interface_writes(devices));
                    }
                }
                r
            },
            EnableDevice::AuxiliaryDevice => {
                let r = send_controller_command_and_wait_processing(
                    &mut self.0,
                    Command::ENABLE_AUXILIARY_DEVICE_INTERFACE,
                );
                proof {
                    if r is Ok {
                        assert(writes_of(self.io_log()) =~= writes_of(old(self).io_log())
                            + enable_interface_writes(devices));
                    }
                }
                r
            },
            EnableDevice::KeyboardAndAuxiliaryDevice => {
                let ghost pre = self.io_log();
                match send_controller_command_and_wait_processing(
                    &mut self.0,
                    Command::ENABLE_KEYBOARD_INTERFACE,
                ) {
                    Ok(()) => {},
                    Err(t) => {
                        return Err(t);
                    },
                }
                let ghost l1 = self.io_log();
                let r = send_controller_command_and_wait_processing(
                    &mut self.0,
                    Command::ENABLE_AUXILIARY_DEVICE_INTERFACE,
                );
                proof {
                    lemma_guarded_trans(pre, l1, self.io_log());
                    if r is Ok {
                        assert(writes_of(self.io_log()) =~= writes_of(pre)
                            + enable_interface_writes(devices));
                    }
                }
                r
            },
        }
    }

    /// Enables the selected interfaces and, when asked, sets their
    /// interrupt enable bits in the command byte.  A timeout in this phase
    /// comes after the interface tests already passed, so it is reported as
    /// [`InterfaceError::Timeout`].
    fn configure<IRQ>(self, devices: EnableDevice, interrupts: bool) -> (r: Result<
        EnabledDevices<T, IRQ>,
        (DevicesDisabled<T>, InterfaceError),
    >)
        ensures
            r matches Ok(en) ==> guarded_extension(self.io_log(), en.io_log())
                && en.spec_devices() == devices && (if interrupts {
                exists|raw: u8|
                    writes_of(en.io_log()) == writes_of(self.io_log()) + enable_interface_writes(
                        devices,
                    ) + #[trigger] interrupt_rewrite_writes(raw, devices) && responded(
                        data_reads_of(self.io_log()),
                        data_reads_of(en.io_log()),
                        raw,
                    )
            } else {
                writes_of(en.io_log()) == writes_of(self.io_log()) + enable_interface_writes(
                    devices,
                ) && data_reads_of(en.io_log()) == data_reads_of(self.io_log())
            }),
            r matches Err((orig, e)) ==> guarded_extension(self.io_log(), orig.io_log())
                && e is Timeout,
    {
        let ghost pre = self.io_log();
        let mut this = self;
        match this.enable_interfaces(devices) {
            Ok(()) => {},
            Err(_) => {
                return Err((this, InterfaceError::Timeout));
            },
        }
        let ghost l1 = this.io_log();
        if interrupts {
            let read_back = match this.controller_command_byte() {
                Ok(c) => c,
                Err(_) => {
                    proof {
                        lemma_guarded_trans(pre, l1, this.io_log());
                    }
                    return Err((this, InterfaceError::Timeout));
                },
            };
            let ghost l2 = this.io_log();
            let ghost raw = choose|x: u8|
                #[trigger] responded(data_reads_of(l1), data_reads_of(l2), x)
                    && read_back.spec_bits() == x & COMMAND_BYTE_ALL_BITS;
            proof {
                lemma_guarded_trans(pre, l1, l2);
            }
            let mut command_byte = read_back;
            match devices {
                EnableDevice::Keyboard => {
                    command_byte.set(COMMAND_BYTE_ENABLE_KEYBOARD_INTERRUPT, true);
                },
                EnableDevice::AuxiliaryDevice => {
                    command_byte.set(COMMAND_BYTE_ENABLE_AUXILIARY_INTERRUPT, true);
                },
                EnableDevice::KeyboardAndAuxiliaryDevice => {
                    command_byte.set(COMMAND_BYTE_ENABLE_KEYBOARD_INTERRUPT, true);
                    command_byte.set(COMMAND_BYTE_ENABLE_AUXILIARY_INTERRUPT, true);
                },
            }
            proof {
                assert(command_byte.spec_bits() == irq_bits_set(raw, devices));
            }
            match write_controller_command_byte(&mut this.0, command_byte) {
                Ok(()) => {},
                Err(_) => {
                    proof {
                        lemma_guarded_trans(pre, l2, this.io_log());
                    }
                    return Err((this, InterfaceError::Timeout));
                },
            }
            proof {
                lemma_guarded_trans(pre, l2, this.io_log());
                assert(responded(data_reads_of(pre), data_reads_of(this.io_log()), raw));
                assert(writes_of(this.io_log()) =~= writes_of(pre) + enable_interface_writes(
                    devices,
                ) + interrupt_rewrite_writes(raw, devices));
            }
        }
        Ok(EnabledDevices { port_io: this.0, _marker: PhantomData, devices })
    }
}

impl<T: PortIO> marker::InterruptsDisabled for DevicesDisabled<T> {

}

impl<T: PortIO> marker::KeyboardDisabled for DevicesDisabled<T> {

}

impl<T: PortIO> marker::AuxiliaryDeviceDisabled for DevicesDisabled<T> {

}

/// Why a runtime send to a device was refused.
#[derive(Clone, Copy, Debug, PartialEq, Eq, Structural)]
pub enum DeviceSendError {
    /// The handle did not enable the addressed device.
    NotEnabled,
    /// The controller stayed busy for the whole poll budget.
    Timeout,
}

/// A handle whose selector is `d` accepts sends to the keyboard.
pub open spec fn can_send_to_keyboard(d: EnableDevice) -> bool {
    !(d is AuxiliaryDevice)
}

/// A handle whose selector is `d` accepts sends to the auxiliary device.
pub open spec fn can_send_to_auxiliary_device(d: EnableDevice) -> bool {
    !(d is Keyboard)
}

/// Enabling devices is history-free.  An enabled handle's runtime
/// capabilities are a function of the selector it carries and of nothing
/// else, and [`DevicesDisabled::enable_devices`] guarantees that the
/// selector always equals its argument.  So enabling a selector, disabling
/// the devices, and enabling the same selector again yields a handle that
/// permits exactly the sends the first handle permitted, as a fresh
/// session would.
pub proof fn lemma_enable_cycle_idempotent<T1: PortIO, Q1, T2: PortIO, Q2>(
    first: &EnabledDevices<T1, Q1>,
    again: &EnabledDevices<T2, Q2>,
)
    requires
        first.spec_devices() == again.spec_devices(),
    ensures
        can_send_to_keyboard(again.spec_devices()) == can_send_to_keyboard(first.spec_devices()),
        can_send_to_auxiliary_device(again.spec_devices()) == can_send_to_auxiliary_device(
            first.spec_devices(),
        ),
{
}

/// One or more device interfaces on; `IRQ` marks whether controller
/// interrupts were enabled.  Which sends are allowed is checked at runtime
/// against the selector the handle was created with.
pub struct EnabledDevices<T: PortIO, IRQ> {
    port_io: T,
    _marker: PhantomData<IRQ>,
    devices: EnableDevice,
}

impl<T: PortIO, IRQ> EnabledDevices<T, IRQ> {
    /// The port trace of this handle.
    pub closed spec fn io_log(&self) -> Seq<PortOp> {
        self.port_io.log()
    }

    /// The selector this handle was created with.
    pub closed spec fn spec_devices(&self) -> EnableDevice {
        self.devices
    }

    /// Which devices this handle enabled.
    pub fn devices(&self) -> (r: EnableDevice)
        ensures
            r == self.spec_devices(),
    {
        self.devices
    }

    /// Reads and decodes the status register once.
    pub fn status(&mut self) -> (r: StatusInfo)
        ensures
            final(self).io_log() == old(self).io_log().push(
                PortOp::Read { port: STATUS_REGISTER_RAW, value: r.spec_bits() },
            ),
            final(self).spec_devices() == old(self).spec_devices(),
    {
        read_status(&mut self.port_io)
    }

    /// Releases the port.  The enabled interfaces are left as they are.
    pub fn into_port_io(self) -> (r: T)
        ensures
            r.log() == self.io_log(),
    {
        self.port_io
    }

    /// Sends a byte to the auxiliary device through the controller.  The
    /// call is refused if and only if this handle enabled the keyboard
    /// alone.
    pub fn send_to_auxiliary_device(&mut self, data: u8) -> (r: Result<(), DeviceSendError>)
        ensures
            guarded_extension(old(self).io_log(), final(self).io_log()),
            final(self).spec_devices() == old(self).spec_devices(),
            r matches Err(DeviceSendError::NotEnabled) <==> !can_send_to_auxiliary_device(
                old(self).spec_devices(),
            ),
            old(self).spec_devices() is Keyboard ==> final(self).io_log() == old(self).io_log(),
            data_reads_of(final(self).io_log()) == data_reads_of(old(self).io_log()),
            r is Ok ==> writes_of(final(self).io_log()) == writes_of(old(self).io_log()).push(
                (COMMAND_REGISTER_RAW, CommandWaitData::WRITE_TO_AUXILIARY_DEVICE),
            ).push((DATA_PORT_RAW, data)),
            r matches Err(DeviceSendError::Timeout) ==> writes_of(final(self).io_log())
                == writes_of(old(self).io_log()) || writes_of(final(self).io_log()) == writes_of(
                old(self).io_log(),
            ).push((COMMAND_REGISTER_RAW, CommandWaitData::WRITE_TO_AUXILIARY_DEVICE)),
    {
        match self.devices {
            EnableDevice::AuxiliaryDevice | EnableDevice::KeyboardAndAuxiliaryDevice => {
                match send_controller_command_and_write_data(
                    &mut self.port_io,
                    CommandWaitData::WRITE_TO_AUXILIARY_DEVICE,
                    data,
                ) {
                    Ok(()) => Ok(()),
                    Err(_) => Err(DeviceSendError::Timeout),
                }
            },
            EnableDevice::Keyboard => {
                proof {
                    lemma_guarded_refl(self.io_log());
                }
                Err(DeviceSendError::NotEnabled)
            },
        }
    }

    /// Sends a byte to the keyboard by writing it to the data port.  The
    /// call is refused if and only if this handle enabled the auxiliary
    /// device alone.
    pub fn send_to_keyboard(&mut self, data: u8) -> (r: Result<(), DeviceSendError>)
        ensures
            guarded_extension(old(self).io_log(), final(self).io_log()),
            final(self).spec_devices() == old(self).spec_devices(),
            r matches Err(DeviceSendError::NotEnabled) <==> !can_send_to_keyboard(
                old(self).spec_devices(),
            ),
            old(self).spec_devices() is AuxiliaryDevice ==> final(self).io_log() == old(
                self,
            ).io_log(),
            data_reads_of(final(self).io_log()) == data_reads_of(old(self).io_log()),
            r is Ok ==> writes_of(final(self).io_log()) == writes_of(old(self).io_log()).push(
                (DATA_PORT_RAW, data),
            ),
            r matches Err(DeviceSendError::Timeout) ==> writes_of(final(self).io_log())
                == writes_of(old(self).io_log()),
    {
        match self.devices {
            EnableDevice::Keyboard | EnableDevice::KeyboardAndAuxiliaryDevice => {
                let ghost pre = self.io_log();
                if !wait_input_empty(&mut self.port_io) {
                    return Err(DeviceSendError::Timeout);
                }
                let ghost mid = self.io_log();
                self.port_io.write(DATA_PORT_RAW, data);
                proof {
                    lemma_guarded_push_write(pre, mid, DATA_PORT_RAW, data);
                    lemma_writes_of_push_write(mid, DATA_PORT_RAW, data);
                    lemma_data_reads_of_push(mid, PortOp::Write { port: DATA_PORT_RAW, value: data });
                }
                Ok(())
            },
            EnableDevice::AuxiliaryDevice => {
                proof {
                    lemma_guarded_refl(self.io_log());
                }
                Err(DeviceSendError::NotEnabled)
            },
        }
    }

    /// Polls for a pending data byte and reads it, tagged with the device
    /// it came from.
    pub fn read_data(&mut self) -> (r: Option<DeviceData>)
        ensures
            guarded_extension(old(self).io_log(), final(self).io_log()),
            final(self).spec_devices() == old(self).spec_devices(),
            writes_of(final(self).io_log()) == writes_of(old(self).io_log()),
            r is None ==> exists|st: u8|
                (#[trigger] status::data_owner_of(st)) is None && final(self).io_log() == old(
                    self,
                ).io_log().push(PortOp::Read { port: STATUS_REGISTER_RAW, value: st }),
            r matches Some(DeviceData::Keyboard(b)) ==> exists|st: u8|
                (#[trigger] status::data_owner_of(st)) == Some(
                    status::DataOwner::KeyboardOrCommandController,
                ) && final(self).io_log() == old(self).io_log().push(
                    PortOp::Read { port: STATUS_REGISTER_RAW, value: st },
                ).push(PortOp::Read { port: DATA_PORT_RAW, value: b }),
            r matches Some(DeviceData::AuxiliaryDevice(b)) ==> exists|st: u8|
                (#[trigger] status::data_owner_of(st)) == Some(status::DataOwner::AuxiliaryDevice)
                    && final(self).io_log() == old(self).io_log().push(
                    PortOp::Read { port: STATUS_REGISTER_RAW, value: st },
                ).push(PortOp::Read { port: DATA_PORT_RAW, value: b }),
    {
        let ghost pre = self.io_log();
        let st = read_status(&mut self.port_io);
        proof {
            lemma_guarded_refl(pre);
            lemma_guarded_push_read(pre, pre, STATUS_REGISTER_RAW, st.spec_bits());
            lemma_writes_of_push_read(pre, STATUS_REGISTER_RAW, st.spec_bits());
        }
        match st.data_availability() {
            None => None,
            Some(owner) => {
                let ghost mid = self.io_log();
                let value = self.port_io.read(DATA_PORT_RAW);
                proof {
                    lemma_guarded_push_read(pre, mid, DATA_PORT_RAW, value);
                    lemma_writes_of_push_read(mid, DATA_PORT_RAW, value);
                }
                match owner {
                    status::DataOwner::KeyboardOrCommandController => Some(
                        DeviceData::Keyboard(value),
                    ),
                    status::DataOwner::AuxiliaryDevice => Some(DeviceData::AuxiliaryDevice(value)),
                }
            },
        }
    }

    /// Pulses the CPU reset line of the output port.
    pub fn reset_cpu(&mut self) -> (r: Result<(), WaitTimeout>)
        ensures
            guarded_extension(old(self).io_log(), final(self).io_log()),
            final(self).spec_devices() == old(self).spec_devices(),
            data_reads_of(final(self).io_log()) == data_reads_of(old(self).io_log()),
            r is Ok ==> writes_of(final(self).io_log()) == writes_of(old(self).io_log()).push(
                (COMMAND_REGISTER_RAW, Command::PULSE_OUTPUT_PORT_START | 0x0E),
            ),
            r is Err ==> writes_of(final(self).io_log()) == writes_of(old(self).io_log())
                || writes_of(final(self).io_log()) == writes_of(old(self).io_log()).push(
                (COMMAND_REGISTER_RAW, Command::PULSE_OUTPUT_PORT_START | 0x0E),
            ),
    {
        send_controller_command_and_wait_processing(
            &mut self.port_io,
            Command::PULSE_OUTPUT_PORT_START | 0x0E,
        )
    }
}

impl<T: PortIO> EnabledDevices<T, marker::InterruptsEnabled> {
    /// You should disable the interrupts before disabling the devices.
    ///
    /// Interrupts were enabled, so disabling runs the full initialization
    /// sequence again: that is the only safe way back.
    pub fn disable_devices(self) -> (r: Result<DevicesDisabled<T>, (T, WaitTimeout)>)
        ensures
            r matches Ok(c) ==> guarded_extension(self.io_log(), c.io_log()) && exists|raw: u8|
                writes_of(c.io_log()) == writes_of(self.io_log()) + #[trigger] start_init_writes(
                    raw,
                ) && responded(data_reads_of(self.io_log()), data_reads_of(c.io_log()), raw),
            r matches Err((p, _)) ==> guarded_extension(self.io_log(), p.log()),
    {
        InitController::start_init(self.port_io)
    }
}

impl<T: PortIO> EnabledDevices<T, marker::Disabled> {
    /// Interrupts were never enabled, so both interfaces are simply
    /// disabled directly.
    pub fn disable_devices(self) -> (r: Result<DevicesDisabled<T>, (T, WaitTimeout)>)
        ensures
            r matches Ok(c) ==> guarded_extension(self.io_log(), c.io_log()) && writes_of(
                c.io_log(),
            ) == writes_of(self.io_log()) + seq![
                (COMMAND_REGISTER_RAW, Command::DISABLE_AUXILIARY_DEVICE_INTERFACE),
                (COMMAND_REGISTER_RAW, Command::DISABLE_KEYBOARD_INTERFACE),
            ] && data_reads_of(c.io_log()) == data_reads_of(self.io_log()),
            r matches Err((p, _)) ==> guarded_extension(self.io_log(), p.log()) && data_reads_of(
                p.log(),
            ) == data_reads_of(self.io_log()) && (writes_of(p.log()) == writes_of(self.io_log())
                || writes_of(p.log()) == writes_of(self.io_log()).push(
                (COMMAND_REGISTER_RAW, Command::DISABLE_AUXILIARY_DEVICE_INTERFACE),
            ) || writes_of(p.log()) == writes_of(self.io_log()).push(
                (COMMAND_REGISTER_RAW, Command::DISABLE_AUXILIARY_DEVICE_INTERFACE),
            ).push((COMMAND_REGISTER_RAW, Command::DISABLE_KEYBOARD_INTERFACE))),
    {
        let ghost pre = self.io_log();
        let mut port_io = self.port_io;
        match send_controller_command_and_wait_processing(
            &mut port_io,
            Command::DISABLE_AUXILIARY_DEVICE_INTERFACE,
        ) {
            Ok(()) => {},
            Err(t) => {
                return Err((port_io, t));
            },
        }
        let ghost l1 = port_io.log();
        match send_controller_command_and_wait_processing(
            &mut port_io,
            Command::DISABLE_KEYBOARD_INTERFACE,
        ) {
            Ok(()) => {},
            Err(t) => {
                proof {
                    lemma_guarded_trans(pre, l1, port_io.log());
                }
                return Err((port_io, t));
            },
        }
        proof {
            lemma_guarded_trans(pre, l1, port_io.log());
            assert(writes_of(port_io.log()) =~= writes_of(pre) + seq![
                (COMMAND_REGISTER_RAW, Command::DISABLE_AUXILIARY_DEVICE_INTERFACE),
                (COMMAND_REGISTER_RAW, Command::DISABLE_KEYBOARD_INTERFACE),
            ]);
        }
        Ok(DevicesDisabled(port_io))
    }
}

/// The command byte bits written back by [`DevicesDisabled::scancode_translation`]
/// when the byte read back was `raw`.
pub open spec fn translate_mode_bits(raw: u8, enabled: bool) -> u8 {
    if enabled {
        (raw & COMMAND_BYTE_ALL_BITS) | COMMAND_BYTE_KEYBOARD_TRANSLATE_MODE
    } else {
        (raw & COMMAND_BYTE_ALL_BITS) & !COMMAND_BYTE_KEYBOARD_TRANSLATE_MODE
    }
}

/// The exact writes of one scancode translation toggle whose command byte
/// read back `raw`.
pub open spec fn scancode_translation_writes(raw: u8, enabled: bool) -> Seq<(u16, u8)> {
    seq![
        (COMMAND_REGISTER_RAW, CommandReturnData::READ_CONTROLLER_COMMAND_BYTE),
        (COMMAND_REGISTER_RAW, CommandWaitData::WRITE_CONTROLLER_COMMAND_BYTE),
        (DATA_PORT_RAW, translate_mode_bits(raw, enabled)),
    ]
}

/// The exact writes of one self test whose command byte read back `raw`:
/// the byte is saved, the self test runs, the byte is written back.
pub open spec fn self_test_writes(raw: u8) -> Seq<(u16, u8)> {
    seq![
        (COMMAND_REGISTER_RAW, CommandReturnData::READ_CONTROLLER_COMMAND_BYTE),
        (COMMAND_REGISTER_RAW, CommandReturnData::SELF_TEST),
        (COMMAND_REGISTER_RAW, CommandWaitData::WRITE_CONTROLLER_COMMAND_BYTE),
        (DATA_PORT_RAW, raw & COMMAND_BYTE_ALL_BITS),
    ]
}

/// The writes of the first `n` RAM read commands.
pub open spec fn ram_read_commands(n: int) -> Seq<(u16, u8)>
    decreases n,
{
    if n <= 0 {
        Seq::empty()
    } else {
        ram_read_commands(n - 1).push(
            (COMMAND_REGISTER_RAW, ((CommandReturnData::READ_RAM_START as int) + n - 1) as u8),
        )
    }
}

/// The writes of the first `n` RAM write commands for the bytes of `data`.
pub open spec fn ram_write_commands(data: Seq<u8>, n: int) -> Seq<(u16, u8)>
    decreases n,
{
    if n <= 0 {
        Seq::empty()
    } else {
        ram_write_commands(data, n - 1) + seq![
            (COMMAND_REGISTER_RAW, ((CommandWaitData::WRITE_RAM_START as int) + n - 1) as u8),
            (DATA_PORT_RAW, data[n - 1]),
        ]
    }
}

} // verus!
