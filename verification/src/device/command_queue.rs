//! The device command and acknowledgement protocol: a bounded FIFO of
//! pending commands, and a checker that runs one command's handshake at a
//! time as bytes arrive from the device.
//!
//! The checker's transition relation is written down once, as the spec
//! function [`checker_step`]; the executable checker is proved to follow it
//! byte for byte, including what is retransmitted to the device on RESEND.

use vstd::prelude::*;

use arraydeque::{ArrayDeque, Saturating};

use super::io::SendToDevice;
use super::keyboard::driver::{
    spec_delay_bits, spec_scancode_setting_byte, spec_set_all_keys_byte, spec_set_key_type_byte,
    DelayMilliseconds, KeyboardScancodeSetting, RateValue, SetAllKeys, SetKeyType,
};
use super::keyboard::raw::{CommandReturnData, FromKeyboard};

verus! {

/// How many commands the queue can hold before it refuses further ones.
pub const QUEUE_CAPACITY: usize = 8;

/// The bounded FIFO storage of the command queue: an `ArrayDeque` of
/// [`QUEUE_CAPACITY`] commands with the saturating behaviour, held opaquely.
#[verifier::external_body]
struct CommandBuffer {
    inner: ArrayDeque<Command, QUEUE_CAPACITY, Saturating>,
}

/// The commands stored in a buffer, front first.
pub uninterp spec fn deque_commands(q: CommandBuffer) -> Seq<Command>;

/// Relies on arraydeque::ArrayDeque::new: a new deque is empty.
#[verifier::external_body]
fn deque_new() -> (r: CommandBuffer)
    ensures
        deque_commands(r) == Seq::<Command>::empty(),
{
    CommandBuffer { inner: ArrayDeque::new() }
}

/// Relies on arraydeque::ArrayDeque::len: how many elements are stored.
#[verifier::external_body]
fn deque_len(q: &CommandBuffer) -> (r: usize)
    ensures
        r == deque_commands(*q).len(),
{
    q.inner.len()
}

/// Relies on arraydeque::ArrayDeque::push_back with the Saturating
/// behaviour: the element is appended when there is room; a full deque is
/// left unchanged and the element comes back in the error.
#[verifier::external_body]
fn deque_push_back(q: &mut CommandBuffer, command: Command) -> (r: Result<(), Command>)
    ensures
        deque_commands(*old(q)).len() < QUEUE_CAPACITY ==> r is Ok && deque_commands(*final(q))
            == deque_commands(*old(q)).push(command),
        deque_commands(*old(q)).len() >= QUEUE_CAPACITY ==> (r matches Err(c) && c == command)
            && deque_commands(*final(q)) == deque_commands(*old(q)),
{
    match q.inner.push_back(command) {
        Ok(()) => Ok(()),
        Err(e) => Err(e.element),
    }
}

/// Relies on arraydeque::ArrayDeque::pop_front: removes and returns the
/// front element, or `None` when the deque is empty.
#[verifier::external_body]
fn deque_pop_front(q: &mut CommandBuffer) -> (r: Option<Command>)
    ensures
        deque_commands(*old(q)).len() == 0 ==> r is None && deque_commands(*final(q))
            == deque_commands(*old(q)),
        deque_commands(*old(q)).len() > 0 ==> r == Some(deque_commands(*old(q)).first())
            && deque_commands(*final(q)) == deque_commands(*old(q)).drop_first(),
{
    q.inner.pop_front()
}

/// Where a two byte read-back command stands in its handshake.
#[derive(Clone, Copy, Debug, PartialEq, Eq, Structural)]
pub enum AckResponseWithReturnTwoBytesState {
    WaitAck,
    WaitFirstByte,
    WaitSecondByte,
}

/// Where a command-then-data command stands in its handshake.
#[derive(Clone, Copy, Debug, PartialEq, Eq, Structural)]
pub enum SendCommandAndDataState {
    WaitAck1,
    WaitAck2,
}

/// Where a command-then-data-then-response command stands in its handshake.
#[derive(Clone, Copy, Debug, PartialEq, Eq, Structural)]
pub enum SendCommandAndDataAndReceiveResponseState {
    WaitAck1,
    WaitAck2,
    WaitResponse,
}

/// A device-facing command, one variant per handshake shape, each carrying
/// its own sub-state machine cursor.
#[derive(Clone, Copy, Debug, PartialEq, Eq, Structural)]
pub enum Command {
    Echo { command: u8 },
    AckResponse { command: u8 },
    AckResponseWithReturnTwoBytes {
        command: u8,
        byte1: u8,
        byte2: u8,
        state: AckResponseWithReturnTwoBytesState,
    },
    SendCommandAndData { command: u8, data: u8, state: SendCommandAndDataState },
    SendCommandAndDataSingleAck {
        command: u8,
        data: u8,
        scancode_received_after_this_command: u8,
        state: SendCommandAndDataState,
    },
    SendCommandAndDataAndReceiveResponse {
        command: u8,
        data: u8,
        response: u8,
        state: SendCommandAndDataAndReceiveResponseState,
    },
}

/// The command byte a command opens its handshake with.
pub open spec fn spec_command_code(c: Command) -> u8 {
    match c {
        Command::Echo { command } => command,
        Command::AckResponse { command } => command,
        Command::AckResponseWithReturnTwoBytes { command, .. } => command,
        Command::SendCommandAndData { command, .. } => command,
        Command::SendCommandAndDataSingleAck { command, .. } => command,
        Command::SendCommandAndDataAndReceiveResponse { command, .. } => command,
    }
}

/// What the queue reports after feeding a byte to the active command.
#[derive(Clone, Copy, Debug, PartialEq, Eq, Structural)]
pub enum Status {
    /// The byte belongs outside the command protocol; the command stays
    /// pending and the byte should be reinterpreted, typically as scancode
    /// data.
    UnexpectedData(u8),
    CommandInProgress,
    CommandFinished(Command),
}

/// One step of the active command's handshake: fed the command `cmd` and
/// the arriving byte, yields the command afterwards (`None` when it
/// finished), what the checker reports, and the bytes it hands the device.
pub open spec fn checker_step(cmd: Command, new_data: u8) -> (
    Option<Command>,
    Option<Status>,
    Seq<u8>,
) {
    match cmd {
        Command::Echo { command } => {
            if new_data == FromKeyboard::ECHO {
                (None, Some(Status::CommandFinished(cmd)), Seq::empty())
            } else if new_data == FromKeyboard::RESEND {
                (Some(cmd), None, seq![command])
            } else {
                (Some(cmd), Some(Status::UnexpectedData(new_data)), Seq::empty())
            }
        },
        Command::AckResponse { command } => {
            if new_data == FromKeyboard::ACK {
                (None, Some(Status::CommandFinished(cmd)), Seq::empty())
            } else if new_data == FromKeyboard::RESEND {
                (Some(cmd), None, seq![command])
            } else {
                (Some(cmd), Some(Status::UnexpectedData(new_data)), Seq::empty())
            }
        },
        Command::AckResponseWithReturnTwoBytes { command, byte1, byte2, state } => {
            match state {
                AckResponseWithReturnTwoBytesState::WaitAck => {
                    if new_data == FromKeyboard::ACK {
                        (
                            Some(
                                Command::AckResponseWithReturnTwoBytes {
                                    command,
                                    byte1,
                                    byte2,
                                    state: AckResponseWithReturnTwoBytesState::WaitFirstByte,
                                },
                            ),
                            Some(Status::CommandInProgress),
                            Seq::empty(),
                        )
                    } else if new_data == FromKeyboard::RESEND {
                        (Some(cmd), None, seq![command])
                    } else {
                        (Some(cmd), Some(Status::UnexpectedData(new_data)), Seq::empty())
                    }
                },
                AckResponseWithReturnTwoBytesState::WaitFirstByte => {
                    (
                        Some(
                            Command::AckResponseWithReturnTwoBytes {
                                command,
                                byte1: new_data,
                                byte2,
                                state: AckResponseWithReturnTwoBytesState::WaitSecondByte,
                            },
                        ),
                        Some(Status::CommandInProgress),
                        Seq::empty(),
                    )
                },
                AckResponseWithReturnTwoBytesState::WaitSecondByte => {
                    (
                        None,
                        Some(
                            Status::CommandFinished(
                                Command::AckResponseWithReturnTwoBytes {
                                    command,
                                    byte1,
                                    byte2: new_data,
                                    state,
                                },
                            ),
                        ),
                        Seq::empty(),
                    )
                },
            }
        },
        Command::SendCommandAndData { command, data, state } => {
            match state {
                SendCommandAndDataState::WaitAck1 => {
                    if new_data == FromKeyboard::ACK {
                        (
                            Some(
                                Command::SendCommandAndData {
                                    command,
                                    data,
                                    state: SendCommandAndDataState::WaitAck2,
                                },
                            ),
                            Some(Status::CommandInProgress),
                            seq![data],
                        )
                    } else if new_data == FromKeyboard::RESEND {
                        (Some(cmd), None, seq![command])
                    } else {
                        (Some(cmd), Some(Status::UnexpectedData(new_data)), Seq::empty())
                    }
                },
                SendCommandAndDataState::WaitAck2 => {
                    if new_data == FromKeyboard::ACK {
                        (None, Some(Status::CommandFinished(cmd)), Seq::empty())
                    } else if new_data == FromKeyboard::RESEND {
                        (Some(cmd), Some(Status::CommandInProgress), seq![data])
                    } else {
                        (Some(cmd), Some(Status::UnexpectedData(new_data)), Seq::empty())
                    }
                },
            }
        },
        Command::SendCommandAndDataSingleAck {
            command,
            data,
            scancode_received_after_this_command,
            state,
        } => {
            match state {
                SendCommandAndDataState::WaitAck1 => {
                    if new_data == FromKeyboard::ACK {
                        (
                            Some(
                                Command::SendCommandAndDataSingleAck {
                                    command,
                                    data,
                                    scancode_received_after_this_command,
                                    state: SendCommandAndDataState::WaitAck2,
                                },
                            ),
                            Some(Status::CommandInProgress),
                            seq![data],
                        )
                    } else if new_data == FromKeyboard::RESEND {
                        (Some(cmd), None, seq![command])
                    } else {
                        (Some(cmd), Some(Status::UnexpectedData(new_data)), Seq::empty())
                    }
                },
                SendCommandAndDataState::WaitAck2 => {
                    if new_data == FromKeyboard::RESEND {
                        (Some(cmd), Some(Status::CommandInProgress), seq![data])
                    } else {
                        (
                            None,
                            Some(
                                Status::CommandFinished(
                                    Command::SendCommandAndDataSingleAck {
                                        command,
                                        data,
                                        scancode_received_after_this_command: new_data,
                                        state,
                                    },
                                ),
                            ),
                            Seq::empty(),
                        )
                    }
                },
            }
        },
        Command::SendCommandAndDataAndReceiveResponse { command, data, response, state } => {
            match state {
                SendCommandAndDataAndReceiveResponseState::WaitAck1 => {
                    if new_data == FromKeyboard::ACK {
                        (
                            Some(
                                Command::SendCommandAndDataAndReceiveResponse {
                                    command,
                                    data,
                                    response,
                                    state: SendCommandAndDataAndReceiveResponseState::WaitAck2,
                                },
                            ),
                            Some(Status::CommandInProgress),
                            seq![data],
                        )
                    } else if new_data == FromKeyboard::RESEND {
                        (Some(cmd), None, seq![command])
                    } else {
                        (Some(cmd), Some(Status::UnexpectedData(new_data)), Seq::empty())
                    }
                },
                SendCommandAndDataAndReceiveResponseState::WaitAck2 => {
                    if new_data == FromKeyboard::ACK {
                        (
                            Some(
                                Command::SendCommandAndDataAndReceiveResponse {
                                    command,
                                    data,
                                    response,
                                    state: SendCommandAndDataAndReceiveResponseState::WaitResponse,
                                },
                            ),
                            Some(Status::CommandInProgress),
                            Seq::empty(),
                        )
                    } else if new_data == FromKeyboard::RESEND {
                        (Some(cmd), Some(Status::CommandInProgress), seq![data])
                    } else {
                        (Some(cmd), Some(Status::CommandInProgress), Seq::empty())
                    }
                },
                SendCommandAndDataAndReceiveResponseState::WaitResponse => {
                    (
                        None,
                        Some(
                            Status::CommandFinished(
                                Command::SendCommandAndDataAndReceiveResponse {
                                    command,
                                    data,
                                    response: new_data,
                                    state,
                                },
                            ),
                        ),
                        Seq::empty(),
                    )
                },
            }
        },
    }
}

/// The sub-states in which the device may answer RESEND because an
/// acknowledgement is awaited: of the command byte, or of the payload byte
/// that followed it.
pub open spec fn ack_waiting(cmd: Command) -> bool {
    match cmd {
        Command::Echo { .. } => true,
        Command::AckResponse { .. } => true,
        Command::AckResponseWithReturnTwoBytes {
            state,
            ..
        } => state is WaitAck,
        Command::SendCommandAndData { .. } => true,
        Command::SendCommandAndDataSingleAck { .. } => true,
        Command::SendCommandAndDataAndReceiveResponse {
            state,
            ..
        } => !(state is WaitResponse),
    }
}

/// What a RESEND at an acknowledgement-waiting sub-state makes the checker
/// transmit again: the command byte while its own acknowledgement is
/// awaited, the payload byte once the handshake has passed it.
pub open spec fn resend_byte(cmd: Command) -> u8 {
    match cmd {
        Command::SendCommandAndData { data, state: SendCommandAndDataState::WaitAck2, .. } => data,
        Command::SendCommandAndDataSingleAck {
            data,
            state: SendCommandAndDataState::WaitAck2,
            ..
        } => data,
        Command::SendCommandAndDataAndReceiveResponse {
            data,
            state: SendCommandAndDataAndReceiveResponseState::WaitAck2,
            ..
        } => data,
        _ => spec_command_code(cmd),
    }
}

/// For every command variant, a RESEND byte arriving at any
/// acknowledgement-waiting sub-state makes the checker retransmit exactly
/// the original command byte, or the pending payload byte, and leaves the
/// command and its sub-state unchanged: the handshake is retried, never
/// advanced, never finished, and the byte is never reported as data.
pub proof fn lemma_resend_repeats(cmd: Command)
    requires
        ack_waiting(cmd),
    ensures
        checker_step(cmd, FromKeyboard::RESEND).0 == Some(cmd),
        checker_step(cmd, FromKeyboard::RESEND).2 == seq![resend_byte(cmd)],
        !(checker_step(cmd, FromKeyboard::RESEND).1 matches Some(Status::CommandFinished(_))),
        !(checker_step(cmd, FromKeyboard::RESEND).1 matches Some(Status::UnexpectedData(_))),
{
}

impl Command {
    /// Disables scancode reporting and restores the keyboard's defaults.
    pub fn default_disable() -> (r: Command)
        ensures
            r == (Command::AckResponse { command: CommandReturnData::DEFAULT_DISABLE }),
    {
        Command::AckResponse { command: CommandReturnData::DEFAULT_DISABLE }
    }

    /// Restores the keyboard's defaults.
    pub fn set_default() -> (r: Command)
        ensures
            r == (Command::AckResponse { command: CommandReturnData::SET_DEFAULT }),
    {
        Command::AckResponse { command: CommandReturnData::SET_DEFAULT }
    }

    /// Asks the keyboard for its two identification bytes.
    pub fn read_id() -> (r: Command)
        ensures
            r == (Command::AckResponseWithReturnTwoBytes {
                command: CommandReturnData::READ_ID,
                byte1: 0,
                byte2: 0,
                state: AckResponseWithReturnTwoBytesState::WaitAck,
            }),
    {
        Command::AckResponseWithReturnTwoBytes {
            command: CommandReturnData::READ_ID,
            byte1: 0,
            byte2: 0,
            state: AckResponseWithReturnTwoBytesState::WaitAck,
        }
    }

    /// Enables scancode reporting.
    pub fn enable() -> (r: Command)
        ensures
            r == (Command::AckResponse { command: CommandReturnData::ENABLE }),
    {
        Command::AckResponse { command: CommandReturnData::ENABLE }
    }

    /// Sets the status indicator LEDs to `data`.
    pub fn set_status_indicators(data: u8) -> (r: Command)
        ensures
            r == (Command::SendCommandAndData {
                command: CommandReturnData::SET_STATUS_INDICATORS,
                data,
                state: SendCommandAndDataState::WaitAck1,
            }),
    {
        Command::SendCommandAndData {
            command: CommandReturnData::SET_STATUS_INDICATORS,
            data,
            state: SendCommandAndDataState::WaitAck1,
        }
    }

    /// Applies a scancode set 3 behaviour to all keys.
    pub fn scancode_set_3_set_all_keys(command: SetAllKeys) -> (r: Command)
        ensures
            r == (Command::AckResponse { command: spec_set_all_keys_byte(command) }),
    {
        Command::AckResponse { command: command.command_byte() }
    }

    /// Applies a scancode set 3 behaviour to the key with this scancode.
    pub fn scancode_set_3_set_key_type(command: SetKeyType, scancode: u8) -> (r: Command)
        ensures
            r == (Command::SendCommandAndDataSingleAck {
                command: spec_set_key_type_byte(command),
                data: scancode,
                scancode_received_after_this_command: 0,
                state: SendCommandAndDataState::WaitAck1,
            }),
    {
        Command::SendCommandAndDataSingleAck {
            command: command.command_byte(),
            data: scancode,
            scancode_received_after_this_command: 0,
            state: SendCommandAndDataState::WaitAck1,
        }
    }

    /// Sets the typematic delay and repeat rate.
    pub fn set_typematic_rate(delay: DelayMilliseconds, rate: RateValue) -> (r: Command)
        ensures
            r == (Command::SendCommandAndData {
                command: CommandReturnData::SET_TYPEMATIC_RATE,
                data: spec_delay_bits(delay) | rate.spec_value(),
                state: SendCommandAndDataState::WaitAck1,
            }),
    {
        Command::SendCommandAndData {
            command: CommandReturnData::SET_TYPEMATIC_RATE,
            data: delay.bits() | rate.value(),
            state: SendCommandAndDataState::WaitAck1,
        }
    }

    /// Switches the keyboard to another scancode set.
    pub fn set_alternate_scancodes(scancode_setting: KeyboardScancodeSetting) -> (r: Command)
        ensures
            r == (Command::SendCommandAndData {
                command: CommandReturnData::SELECT_ALTERNATE_SCANCODES,
                data: spec_scancode_setting_byte(scancode_setting),
                state: SendCommandAndDataState::WaitAck1,
            }),
    {
        Command::SendCommandAndData {
            command: CommandReturnData::SELECT_ALTERNATE_SCANCODES,
            data: scancode_setting.byte(),
            state: SendCommandAndDataState::WaitAck1,
        }
    }

    /// Asks which scancode set is active.
    pub fn get_current_scancode_set() -> (r: Command)
        ensures
            r == (Command::SendCommandAndDataAndReceiveResponse {
                command: CommandReturnData::SELECT_ALTERNATE_SCANCODES,
                data: 0,
                response: 0,
                state: SendCommandAndDataAndReceiveResponseState::WaitAck1,
            }),
    {
        Command::SendCommandAndDataAndReceiveResponse {
            command: CommandReturnData::SELECT_ALTERNATE_SCANCODES,
            data: 0,
            response: 0,
            state: SendCommandAndDataAndReceiveResponseState::WaitAck1,
        }
    }

    /// Asks the keyboard to echo a sentinel byte back.
    pub fn echo() -> (r: Command)
        ensures
            r == (Command::Echo { command: CommandReturnData::ECHO }),
    {
        Command::Echo { command: CommandReturnData::ECHO }
    }

    /// The command byte this command opens its handshake with.
    pub fn command_code(&self) -> (r: u8)
        ensures
            r == spec_command_code(*self),
    {
        match self {
            Command::Echo { command } => *command,
            Command::AckResponse { command } => *command,
            Command::AckResponseWithReturnTwoBytes { command, .. } => *command,
            Command::SendCommandAndData { command, .. } => *command,
            Command::SendCommandAndDataSingleAck { command, .. } => *command,
            Command::SendCommandAndDataAndReceiveResponse { command, .. } => *command,
        }
    }
}

/// Runs one command's handshake as bytes arrive from the device.
#[derive(Clone, Copy, Debug, PartialEq, Eq, Structural)]
pub struct CommandChecker {
    current_command: Option<Command>,
}

proof fn lemma_seq_add_empty(s: Seq<u8>)
    ensures
        s + Seq::<u8>::empty() == s,
{
    assert(s + Seq::<u8>::empty() =~= s);
}

proof fn lemma_seq_add_one(s: Seq<u8>, x: u8)
    ensures
        s + seq![x] == s.push(x),
{
    assert(s + seq![x] =~= s.push(x));
}

impl CommandChecker {
    /// The in-flight command, `None` when the checker is idle.
    pub closed spec fn spec_current(&self) -> Option<Command> {
        self.current_command
    }

    /// An idle checker.
    pub fn new() -> (r: CommandChecker)
        ensures
            r.spec_current() is None,
    {
        CommandChecker { current_command: None }
    }

    /// The in-flight command, `None` when the checker is idle.
    pub fn current_command(&self) -> (r: &Option<Command>)
        ensures
            *r == self.spec_current(),
    {
        &self.current_command
    }

    /// Opens `command`'s handshake: transmits its command byte and makes it
    /// the in-flight command.
    pub fn send_new_command<T: SendToDevice>(&mut self, command: Command, device: &mut T)
        ensures
            final(self).spec_current() == Some(command),
            final(device).sent() == old(device).sent().push(spec_command_code(command)),
    {
        device.send(command.command_code());
        self.current_command = Some(command);
    }

    /// Feeds one byte from the device to the in-flight command's handshake,
    /// following [`checker_step`] exactly.  `None` is reported when the
    /// checker is idle, and on a RESEND that reopened the handshake.
    pub fn receive_data<U: SendToDevice>(&mut self, new_data: u8, device: &mut U) -> (r: Option<
        Status,
    >)
        ensures
            old(self).spec_current() is None ==> r is None && final(self).spec_current() == old(
                self,
            ).spec_current() && final(device).sent() == old(device).sent(),
            old(self).spec_current() matches Some(cmd) ==> {
                &&& final(self).spec_current() == checker_step(cmd, new_data).0
                &&& r == checker_step(cmd, new_data).1
                &&& final(device).sent() == old(device).sent() + checker_step(cmd, new_data).2
            },
    {
        let cmd_opt = self.current_command;
        let cmd = match cmd_opt {
            None => {
                return None;
            },
            Some(c) => c,
        };
        proof {
            lemma_seq_add_empty(device.sent());
            lemma_seq_add_one(device.sent(), resend_byte(cmd));
            lemma_seq_add_one(device.sent(), spec_command_code(cmd));
        }
        match cmd {
            Command::Echo { command } => {
                if new_data == FromKeyboard::ECHO {
                    self.current_command = None;
                    Some(Status::CommandFinished(cmd))
                } else if new_data == FromKeyboard::RESEND {
                    self.send_new_command(cmd, device);
                    None
                } else {
                    Some(Status::UnexpectedData(new_data))
                }
            },
            Command::AckResponse { command } => {
                if new_data == FromKeyboard::ACK {
                    self.current_command = None;
                    Some(Status::CommandFinished(cmd))
                } else if new_data == FromKeyboard::RESEND {
                    self.send_new_command(cmd, device);
                    None
                } else {
                    Some(Status::UnexpectedData(new_data))
                }
            },
            Command::AckResponseWithReturnTwoBytes { command, byte1, byte2, state } => {
                match state {
                    AckResponseWithReturnTwoBytesState::WaitAck => {
                        if new_data == FromKeyboard::ACK {
                            self.current_command = Some(
                                Command::AckResponseWithReturnTwoBytes {
                                    command,
                                    byte1,
                                    byte2,
                                    state: AckResponseWithReturnTwoBytesState::WaitFirstByte,
                                },
                            );
                            Some(Status::CommandInProgress)
                        } else if new_data == FromKeyboard::RESEND {
                            self.send_new_command(cmd, device);
                            None
                        } else {
                            Some(Status::UnexpectedData(new_data))
                        }
                    },
                    AckResponseWithReturnTwoBytesState::WaitFirstByte => {
                        self.current_command = Some(
                            Command::AckResponseWithReturnTwoBytes {
                                command,
                                byte1: new_data,
                                byte2,
                                state: AckResponseWithReturnTwoBytesState::WaitSecondByte,
                            },
                        );
                        Some(Status::CommandInProgress)
                    },
                    AckResponseWithReturnTwoBytesState::WaitSecondByte => {
                        self.current_command = None;
                        Some(
                            Status::CommandFinished(
                                Command::AckResponseWithReturnTwoBytes {
                                    command,
                                    byte1,
                                    byte2: new_data,
                                    state,
                                },
                            ),
                        )
                    },
                }
            },
            Command::SendCommandAndData { command, data, state } => {
                match state {
                    SendCommandAndDataState::WaitAck1 => {
                        if new_data == FromKeyboard::ACK {
                            self.current_command = Some(
                                Command::SendCommandAndData {
                                    command,
                                    data,
                                    state: SendCommandAndDataState::WaitAck2,
                                },
                            );
                            proof {
                                lemma_seq_add_one(device.sent(), data);
                            }
                            device.send(data);
                            Some(Status::CommandInProgress)
                        } else if new_data == FromKeyboard::RESEND {
                            self.send_new_command(cmd, device);
                            None
                        } else {
                            Some(Status::UnexpectedData(new_data))
                        }
                    },
                    SendCommandAndDataState::WaitAck2 => {
                        if new_data == FromKeyboard::ACK {
                            self.current_command = None;
                            Some(Status::CommandFinished(cmd))
                        } else if new_data == FromKeyboard::RESEND {
                            proof {
                                lemma_seq_add_one(device.sent(), data);
                            }
                            device.send(data);
                            Some(Status::CommandInProgress)
                        } else {
                            Some(Status::UnexpectedData(new_data))
                        }
                    },
                }
            },
            Command::SendCommandAndDataSingleAck {
                command,
                data,
                scancode_received_after_this_command,
                state,
            } => {
                match state {
                    SendCommandAndDataState::WaitAck1 => {
                        if new_data == FromKeyboard::ACK {
                            self.current_command = Some(
                                Command::SendCommandAndDataSingleAck {
                                    command,
                                    data,
                                    scancode_received_after_this_command,
                                    state: SendCommandAndDataState::WaitAck2,
                                },
                            );
                            proof {
                                lemma_seq_add_one(device.sent(), data);
                            }
                            device.send(data);
                            Some(Status::CommandInProgress)
                        } else if new_data == FromKeyboard::RESEND {
                            self.send_new_command(cmd, device);
                            None
                        } else {
                            Some(Status::UnexpectedData(new_data))
                        }
                    },
                    SendCommandAndDataState::WaitAck2 => {
                        if new_data == FromKeyboard::RESEND {
                            proof {
                                lemma_seq_add_one(device.sent(), data);
                            }
                            device.send(data);
                            Some(Status::CommandInProgress)
                        } else {
                            self.current_command = None;
                            Some(
                                Status::CommandFinished(
                                    Command::SendCommandAndDataSingleAck {
                                        command,
                                        data,
                                        scancode_received_after_this_command: new_data,
                                        state,
                                    },
                                ),
                            )
                        }
                    },
                }
            },
            Command::SendCommandAndDataAndReceiveResponse { command, data, response, state } => {
                match state {
                    SendCommandAndDataAndReceiveResponseState::WaitAck1 => {
                        if new_data == FromKeyboard::ACK {
                            self.current_command = Some(
                                Command::SendCommandAndDataAndReceiveResponse {
                                    command,
                                    data,
                                    response,
                                    state: SendCommandAndDataAndReceiveResponseState::WaitAck2,
                                },
                            );
                            proof {
                                lemma_seq_add_one(device.sent(), data);
                            }
                            device.send(data);
                            Some(Status::CommandInProgress)
                        } else if new_data == FromKeyboard::RESEND {
                            self.send_new_command(cmd, device);
                            None
                        } else {
                            Some(Status::UnexpectedData(new_data))
                        }
                    },
                    SendCommandAndDataAndReceiveResponseState::WaitAck2 => {
                        if new_data == FromKeyboard::ACK {
                            self.current_command = Some(
                                Command::SendCommandAndDataAndReceiveResponse {
                                    command,
                                    data,
                                    response,
                                    state: SendCommandAndDataAndReceiveResponseState::WaitResponse,
                                },
                            );
                            Some(Status::CommandInProgress)
                        } else if new_data == FromKeyboard::RESEND {
                            proof {
                                lemma_seq_add_one(device.sent(), data);
                            }
                            device.send(data);
                            Some(Status::CommandInProgress)
                        } else {
                            Some(Status::CommandInProgress)
                        }
                    },
                    SendCommandAndDataAndReceiveResponseState::WaitResponse => {
                        self.current_command = None;
                        Some(
                            Status::CommandFinished(
                                Command::SendCommandAndDataAndReceiveResponse {
                                    command,
                                    data,
                                    response: new_data,
                                    state,
                                },
                            ),
                        )
                    },
                }
            },
        }
    }
}

/// The queue was full; the rejected command is handed back.
#[derive(Clone, Copy, Debug, PartialEq, Eq, Structural)]
pub struct CapacityError(pub Command);

/// A bounded FIFO of not-yet-started commands, plus at most one in-flight
/// command tracked by the checker.  At most one command is ever outstanding
/// to the device: a queued command starts only when its predecessor's
/// handshake finished.
pub struct CommandQueue {
    commands: CommandBuffer,
    command_checker: CommandChecker,
}

impl CommandQueue {
    /// The queued commands that have not been started yet, front first.
    pub closed spec fn pending(&self) -> Seq<Command> {
        deque_commands(self.commands)
    }

    /// The in-flight command, whose handshake bytes are awaited.
    pub closed spec fn in_flight(&self) -> Option<Command> {
        self.command_checker.spec_current()
    }

    /// The queue's invariant: it never holds more than its capacity, and
    /// commands wait only while another is in flight.
    pub open spec fn wf(&self) -> bool {
        &&& self.pending().len() <= QUEUE_CAPACITY
        &&& (self.in_flight() is None ==> self.pending().len() == 0)
    }

    /// An empty, idle queue.
    pub fn new() -> (r: CommandQueue)
        ensures
            r.wf(),
            r.pending() == Seq::<Command>::empty(),
            r.in_flight() is None,
    {
        CommandQueue { commands: deque_new(), command_checker: CommandChecker::new() }
    }

    /// True when at least `count` more commands fit.
    pub fn space_available(&self, count: usize) -> (r: bool)
        requires
            self.wf(),
        ensures
            r == (QUEUE_CAPACITY - self.pending().len() >= count),
    {
        QUEUE_CAPACITY - deque_len(&self.commands) >= count
    }

    /// Appends a command.  If nothing is in flight the command starts at
    /// once; a full queue refuses and hands the command back unchanged.
    pub fn add<U: SendToDevice>(&mut self, command: Command, device: &mut U) -> (r: Result<
        (),
        CapacityError,
    >)
        requires
            old(self).wf(),
        ensures
            final(self).wf(),
            old(self).pending().len() >= QUEUE_CAPACITY ==> (r matches Err(e) && e
                == CapacityError(command)) && final(self).pending() == old(self).pending() && final(self).in_flight() == old(self).in_flight() && final(device).sent() == old(device).sent(),
            old(self).pending().len() < QUEUE_CAPACITY && old(self).in_flight() is None ==> r is Ok
                && final(self).pending().len() == 0 && final(self).in_flight() == Some(command)
                && final(device).sent() == old(device).sent().push(spec_command_code(command)),
            old(self).pending().len() < QUEUE_CAPACITY && old(self).in_flight() is Some ==> r is Ok
                && final(self).pending() == old(self).pending().push(command) && final(self).in_flight() == old(self).in_flight() && final(device).sent() == old(device).sent(),
    {
        let result = match deque_push_back(&mut self.commands, command) {
            Ok(()) => Ok(()),
            Err(c) => Err(CapacityError(c)),
        };
        if self.command_checker.current_command().is_none() {
            match deque_pop_front(&mut self.commands) {
                Some(c) => self.command_checker.send_new_command(c, device),
                None => {},
            }
        }
        result
    }

    /// Feeds one byte from the device to the in-flight command.  When that
    /// command finishes, the next queued command starts at once.  Receive
    /// data only if command queue is not empty: an idle queue reports
    /// `None` and changes nothing.
    pub fn receive_data<U: SendToDevice>(&mut self, new_data: u8, device: &mut U) -> (r: Option<
        Status,
    >)
        requires
            old(self).wf(),
        ensures
            final(self).wf(),
            old(self).in_flight() is None ==> r is None && final(self).pending() == old(
                self,
            ).pending() && final(self).in_flight() is None && final(device).sent() == old(
                device,
            ).sent(),
            old(self).in_flight() matches Some(cmd) ==> {
                &&& r == checker_step(cmd, new_data).1
                &&& if checker_step(cmd, new_data).1 matches Some(Status::CommandFinished(_)) {
                    if old(self).pending().len() > 0 {
                        &&& final(self).in_flight() == Some(old(self).pending().first())
                        &&& final(self).pending() == old(self).pending().drop_first()
                        &&& final(device).sent() == old(device).sent() + checker_step(
                            cmd,
                            new_data,
                        ).2 + seq![spec_command_code(old(self).pending().first())]
                    } else {
                        &&& final(self).in_flight() is None
                        &&& final(self).pending() == old(self).pending()
                        &&& final(device).sent() == old(device).sent() + checker_step(
                            cmd,
                            new_data,
                        ).2
                    }
                } else {
                    &&& final(self).in_flight() == checker_step(cmd, new_data).0
                    &&& final(self).pending() == old(self).pending()
                    &&& final(device).sent() == old(device).sent() + checker_step(cmd, new_data).2
                }
            },
    {
        let result = self.command_checker.receive_data(new_data, device);
        let finished = match &result {
            Some(Status::CommandFinished(_)) => true,
            _ => false,
        };
        if finished {
            match deque_pop_front(&mut self.commands) {
                Some(c) => {
                    self.command_checker.send_new_command(c, device);
                    proof {
                        match old(self).in_flight() {
                            Some(cmd) => {
                                assert(old(device).sent() + checker_step(cmd, new_data).2 + seq![
                                    spec_command_code(old(self).pending().first()),
                                ] =~= (old(device).sent() + checker_step(cmd, new_data).2).push(
                                    spec_command_code(old(self).pending().first()),
                                ));
                            },
                            None => {},
                        }
                    }
                },
                None => {},
            }
        }
        result
    }

    /// True when nothing is queued and nothing is in flight.
    pub fn empty(&self) -> (r: bool)
        ensures
            r == (self.pending().len() == 0 && self.in_flight() is None),
    {
        deque_len(&self.commands) == 0 && self.command_checker.current_command().is_none()
    }
}

} // verus!

