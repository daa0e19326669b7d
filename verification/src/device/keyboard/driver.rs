//! The keyboard driver session: composes the command queue with a scancode
//! decoder and a coarse enabled/disabled state.

use vstd::prelude::*;

use pc_keyboard::layouts::Us104Key;
use pc_keyboard::{Error, HandleControl, KeyEvent, PS2Keyboard, ScancodeSet1, ScancodeSet2};

use crate::device::command_queue::{
    checker_step, spec_command_code, Command, CommandQueue, Status, QUEUE_CAPACITY,
};
use crate::device::io::SendToDevice;
use super::raw::CommandReturnData;
use super::raw::CommandSetAllKeys;
use super::raw::CommandSetKeyType;
use super::raw::FromKeyboard;
use super::raw::StatusIndicators;

verus! {

/// Scancode set 3 behaviour applied to all keys at once.
#[derive(Clone, Copy, Debug, PartialEq, Eq, Structural)]
pub enum SetAllKeys {
    Typematic,
    MakeSlashBreak,
    Make,
    TypematicSlashMakeSlashBreak,
}

/// The command byte a [`SetAllKeys`] choice is sent as.
pub open spec fn spec_set_all_keys_byte(v: SetAllKeys) -> u8 {
    match v {
        SetAllKeys::Typematic => CommandSetAllKeys::TYPEMATIC,
        SetAllKeys::MakeSlashBreak => CommandSetAllKeys::MAKE_SLASH_BREAK,
        SetAllKeys::Make => CommandSetAllKeys::MAKE,
        SetAllKeys::TypematicSlashMakeSlashBreak => CommandSetAllKeys::TYPEMATIC_SLASH_MAKE_SLASH_BREAK,
    }
}

impl SetAllKeys {
    /// The command byte this choice is sent as.
    pub fn command_byte(&self) -> (r: u8)
        ensures
            r == spec_set_all_keys_byte(*self),
    {
        match self {
            SetAllKeys::Typematic => CommandSetAllKeys::TYPEMATIC,
            SetAllKeys::MakeSlashBreak => CommandSetAllKeys::MAKE_SLASH_BREAK,
            SetAllKeys::Make => CommandSetAllKeys::MAKE,
            SetAllKeys::TypematicSlashMakeSlashBreak => CommandSetAllKeys::TYPEMATIC_SLASH_MAKE_SLASH_BREAK,
        }
    }
}

/// Scancode set 3 behaviour applied to one key.
#[derive(Clone, Copy, Debug, PartialEq, Eq, Structural)]
pub enum SetKeyType {
    Typematic,
    MakeSlashBreak,
    Make,
}

/// The command byte a [`SetKeyType`] choice is sent as.
pub open spec fn spec_set_key_type_byte(v: SetKeyType) -> u8 {
    match v {
        SetKeyType::Typematic => CommandSetKeyType::TYPEMATIC,
        SetKeyType::MakeSlashBreak => CommandSetKeyType::MAKE_SLASH_BREAK,
        SetKeyType::Make => CommandSetKeyType::MAKE,
    }
}

impl SetKeyType {
    /// The command byte this choice is sent as.
    pub fn command_byte(&self) -> (r: u8)
        ensures
            r == spec_set_key_type_byte(*self),
    {
        match self {
            SetKeyType::Typematic => CommandSetKeyType::TYPEMATIC,
            SetKeyType::MakeSlashBreak => CommandSetKeyType::MAKE_SLASH_BREAK,
            SetKeyType::Make => CommandSetKeyType::MAKE,
        }
    }
}

/// The typematic delay before a held key repeats.
#[derive(Clone, Copy, Debug, PartialEq, Eq, Structural)]
pub enum DelayMilliseconds {
    Delay250,
    /// Default value.
    Delay500,
    Delay750,
    Delay1000,
}

/// The delay bits a [`DelayMilliseconds`] choice contributes to the
/// typematic rate data byte.
pub open spec fn spec_delay_bits(v: DelayMilliseconds) -> u8 {
    match v {
        DelayMilliseconds::Delay250 => 0,
        DelayMilliseconds::Delay500 => 0b0010_0000,
        DelayMilliseconds::Delay750 => 0b0100_0000,
        DelayMilliseconds::Delay1000 => 0b0110_0000,
    }
}

impl DelayMilliseconds {
    /// The delay bits of the typematic rate data byte.
    pub fn bits(&self) -> (r: u8)
        ensures
            r == spec_delay_bits(*self),
    {
        match self {
            DelayMilliseconds::Delay250 => 0,
            DelayMilliseconds::Delay500 => 0b0010_0000,
            DelayMilliseconds::Delay750 => 0b0100_0000,
            DelayMilliseconds::Delay1000 => 0b0110_0000,
        }
    }
}

/// A typematic repeat rate, a five bit value: zero is the fastest rate at
/// thirty repeats per second, the largest value the slowest at two.
#[derive(Clone, Copy, Debug, PartialEq, Eq, Structural)]
pub struct RateValue(u8);

impl RateValue {
    /// The stored rate bits.
    pub closed spec fn spec_value(&self) -> u8 {
        self.0
    }

    /// 30 Hz.
    pub fn rate_max() -> (r: RateValue)
        ensures
            r.spec_value() == 0,
    {
        RateValue(0)
    }

    /// 2 Hz.
    pub fn rate_min() -> (r: RateValue)
        ensures
            r.spec_value() == 0b0001_1111,
    {
        RateValue(0b0001_1111)
    }

    /// 10,9 Hz.
    pub fn rate_default() -> (r: RateValue)
        ensures
            r.spec_value() == 0b0000_1011,
    {
        RateValue(0b0000_1011)
    }

    /// Create new `RateValue`.  Only the five rate bits may be set.
    pub fn new(value: u8) -> (r: RateValue)
        requires
            value & !0b0001_1111 == 0,
        ensures
            r.spec_value() == value,
    {
        RateValue(value)
    }

    /// The rate bits of the typematic rate data byte.
    pub fn value(&self) -> (r: u8)
        ensures
            r == self.spec_value(),
    {
        self.0
    }
}

/// The scancode set a keyboard can be switched to.
#[derive(Clone, Copy, Debug, PartialEq, Eq, Structural)]
pub enum KeyboardScancodeSetting {
    Set1,
    Set2,
    Set3,
}

/// The data byte a [`KeyboardScancodeSetting`] choice is selected with.
pub open spec fn spec_scancode_setting_byte(v: KeyboardScancodeSetting) -> u8 {
    match v {
        KeyboardScancodeSetting::Set1 => 1,
        KeyboardScancodeSetting::Set2 => 2,
        KeyboardScancodeSetting::Set3 => 3,
    }
}

impl KeyboardScancodeSetting {
    /// The data byte this choice is selected with.
    pub fn byte(&self) -> (r: u8)
        ensures
            r == spec_scancode_setting_byte(*self),
    {
        match self {
            KeyboardScancodeSetting::Set1 => 1,
            KeyboardScancodeSetting::Set2 => 2,
            KeyboardScancodeSetting::Set3 => 3,
        }
    }
}

/// Declares pc_keyboard::KeyEvent, carried opaquely inside
/// [`KeyboardEvent::Key`].
#[verifier::external_type_specification]
#[verifier::external_body]
pub struct ExKeyEvent(KeyEvent);

/// Declares pc_keyboard::Error, carried opaquely inside
/// [`KeyboardError::ScancodeParsingError`].
#[verifier::external_type_specification]
#[verifier::external_body]
pub struct ExError(Error);

/// A scancode set 1 decoder for the US 104 key layout, held opaquely.
#[verifier::external_body]
struct Set1Decoder {
    inner: PS2Keyboard<Us104Key, ScancodeSet1>,
}

/// A scancode set 2 decoder for the US 104 key layout, held opaquely.
#[verifier::external_body]
struct Set2Decoder {
    inner: PS2Keyboard<Us104Key, ScancodeSet2>,
}

/// Relies on pc_keyboard::PS2Keyboard::new: builds a fresh scancode set 1
/// decoder for the US 104 key layout, with control mapping ignored.
#[verifier::external_body]
fn set1_decoder_new() -> Set1Decoder {
    Set1Decoder { inner: PS2Keyboard::new(ScancodeSet1::new(), Us104Key, HandleControl::Ignore) }
}

/// Relies on pc_keyboard::PS2Keyboard::new: builds a fresh scancode set 2
/// decoder for the US 104 key layout, with control mapping ignored.
#[verifier::external_body]
fn set2_decoder_new() -> Set2Decoder {
    Set2Decoder { inner: PS2Keyboard::new(ScancodeSet2::new(), Us104Key, HandleControl::Ignore) }
}

/// Relies on pc_keyboard::PS2Keyboard::add_byte: advances the decoder by
/// one scancode byte, yielding a key event when one completed, nothing
/// while a multi-byte scancode is in progress, or a decode error.
#[verifier::external_body]
fn set1_decoder_add_byte(decoder: &mut Set1Decoder, scancode: u8) -> Result<Option<KeyEvent>, Error> {
    decoder.inner.add_byte(scancode)
}

/// Relies on pc_keyboard::PS2Keyboard::add_byte, as for scancode set 1.
#[verifier::external_body]
fn set2_decoder_add_byte(decoder: &mut Set2Decoder, scancode: u8) -> Result<Option<KeyEvent>, Error> {
    decoder.inner.add_byte(scancode)
}

/// Which decoding table a [`ScancodeDecoder`] currently uses.
#[derive(Clone, Copy, Debug, PartialEq, Eq, Structural)]
pub enum ScancodeDecoderSetting {
    Set1,
    Set2,
}

/// The active decoder instance.
enum Decoder {
    Set1(Set1Decoder),
    Set2(Set2Decoder),
}

/// A stateful scancode decoder, switchable between the scancode set 1 and
/// set 2 decoding tables.
pub struct ScancodeDecoder {
    current_decoder: Decoder,
}

impl ScancodeDecoder {
    /// The decoding table in use.
    pub closed spec fn spec_setting(&self) -> ScancodeDecoderSetting {
        match self.current_decoder {
            Decoder::Set1(_) => ScancodeDecoderSetting::Set1,
            Decoder::Set2(_) => ScancodeDecoderSetting::Set2,
        }
    }

    /// Defaults to scancode set 2.
    pub fn new() -> (r: ScancodeDecoder)
        ensures
            r.spec_setting() == ScancodeDecoderSetting::Set2,
    {
        ScancodeDecoder { current_decoder: Decoder::Set2(set2_decoder_new()) }
    }

    /// Feeds one scancode byte to the active decoder.
    pub fn decode(&mut self, scancode: u8) -> (r: Result<Option<KeyEvent>, Error>)
        ensures
            final(self).spec_setting() == old(self).spec_setting(),
    {
        match &mut self.current_decoder {
            Decoder::Set1(decoder) => set1_decoder_add_byte(decoder, scancode),
            Decoder::Set2(decoder) => set2_decoder_add_byte(decoder, scancode),
        }
    }

    /// Replaces the decoder with a fresh one for `setting`.
    pub fn change_decoder(&mut self, setting: ScancodeDecoderSetting)
        ensures
            final(self).spec_setting() == setting,
    {
        match setting {
            ScancodeDecoderSetting::Set1 => {
                self.current_decoder = Decoder::Set1(set1_decoder_new());
            },
            ScancodeDecoderSetting::Set2 => {
                self.current_decoder = Decoder::Set2(set2_decoder_new());
            },
        }
    }
}

/// Why the keyboard session reported an error for a received byte.
#[derive(Debug, PartialEq, Eq)]
pub enum KeyboardError {
    /// The keyboard reported a key detection overrun: a hardware fault.
    KeyDetectionError,
    /// The keyboard's basic assurance test failed: a hardware fault.
    BATCompletionFailure,
    /// The keyboard reported an active scancode set this driver does not
    /// know.
    UnknownScancodeSet(u8),
    /// The scancode decoder rejected the byte stream.
    ScancodeParsingError(Error),
}

/// A keyboard-level event synthesized from the byte stream.
#[derive(Debug, PartialEq, Eq)]
pub enum KeyboardEvent {
    /// A decoded key event.
    Key(KeyEvent),
    /// The keyboard finished its basic assurance test.
    BATCompleted,
    /// The keyboard's two identification bytes.
    ID { byte1: u8, byte2: u8 },
    /// The scancode set the keyboard reports as active.
    ScancodeSet(KeyboardScancodeSetting),
    /// The keyboard answered an echo request.
    Echo,
}

/// The command queue had no room for another command.
#[derive(Clone, Copy, Debug, PartialEq, Eq, Structural)]
pub struct NotEnoughSpaceInTheCommandQueue;

/// Whether the keyboard is expected to report scancodes.
#[derive(Clone, Copy, Debug, PartialEq, Eq, Structural)]
enum State {
    ScancodesDisabled,
    ScancodesEnabled,
}

/// A result shaped like the outcome of feeding one byte to the scancode
/// decoder: a decoded key, nothing yet, or a decode error.
pub open spec fn decode_shaped(r: Result<Option<KeyboardEvent>, KeyboardError>) -> bool {
    ||| r matches Ok(Some(KeyboardEvent::Key(_)))
    ||| r matches Ok(None)
    ||| r matches Err(KeyboardError::ScancodeParsingError(_))
}

/// The keyboard session: owns the command queue, the scancode decoder and
/// the coarse enabled state, and turns raw controller bytes into
/// keyboard-level events.
pub struct Keyboard {
    commands: CommandQueue,
    state: State,
    scancode_reader: ScancodeDecoder,
}

/// Nothing observable about the session changed: queue, enabled state and
/// decoding table are as before.
pub open spec fn session_unchanged(a: &Keyboard, b: &Keyboard) -> bool {
    &&& b.spec_pending() == a.spec_pending()
    &&& b.spec_in_flight() == a.spec_in_flight()
    &&& b.scancodes_enabled() == a.scancodes_enabled()
    &&& b.spec_decoder_setting() == a.spec_decoder_setting()
}

/// The session's queue took one command, exactly as
/// [`CommandQueue::add`] describes: started at once when the queue was
/// idle, appended behind the in-flight command otherwise.
pub open spec fn session_enqueued(
    a: &Keyboard,
    b: &Keyboard,
    old_sent: Seq<u8>,
    new_sent: Seq<u8>,
    cmd: Command,
) -> bool {
    if a.spec_in_flight() is None {
        &&& b.spec_pending().len() == 0
        &&& b.spec_in_flight() == Some(cmd)
        &&& new_sent == old_sent.push(spec_command_code(cmd))
    } else {
        &&& b.spec_pending() == a.spec_pending().push(cmd)
        &&& b.spec_in_flight() == a.spec_in_flight()
        &&& new_sent == old_sent
    }
}

/// The session's queue consumed one byte for the in-flight command `cmd`,
/// exactly as [`CommandQueue::receive_data`] describes, including the start
/// of the next queued command when `cmd` finished.
pub open spec fn session_queue_stepped(
    a: &Keyboard,
    b: &Keyboard,
    old_sent: Seq<u8>,
    new_sent: Seq<u8>,
    cmd: Command,
    byte: u8,
) -> bool {
    let step = checker_step(cmd, byte);
    if step.1 matches Some(Status::CommandFinished(_)) {
        if a.spec_pending().len() > 0 {
            &&& b.spec_in_flight() == Some(a.spec_pending().first())
            &&& b.spec_pending() == a.spec_pending().drop_first()
            &&& new_sent == old_sent + step.2 + seq![spec_command_code(a.spec_pending().first())]
        } else {
            &&& b.spec_in_flight() is None
            &&& b.spec_pending() == a.spec_pending()
            &&& new_sent == old_sent + step.2
        }
    } else {
        &&& b.spec_in_flight() == step.0
        &&& b.spec_pending() == a.spec_pending()
        &&& new_sent == old_sent + step.2
    }
}

impl Keyboard {
    /// The queued commands that have not been started yet.
    pub closed spec fn spec_pending(&self) -> Seq<Command> {
        self.commands.pending()
    }

    /// The in-flight command.
    pub closed spec fn spec_in_flight(&self) -> Option<Command> {
        self.commands.in_flight()
    }

    /// Whether the keyboard is expected to report scancodes.
    pub closed spec fn scancodes_enabled(&self) -> bool {
        self.state is ScancodesEnabled
    }

    /// The decoding table in use.
    pub closed spec fn spec_decoder_setting(&self) -> ScancodeDecoderSetting {
        self.scancode_reader.spec_setting()
    }

    /// The session's invariant: its command queue is well formed.
    pub closed spec fn wf(&self) -> bool {
        self.commands.wf()
    }

    /// A fresh session: scancodes disabled, the decoder at its scancode
    /// set 2 default, and the disable command already on its way to the
    /// device.
    pub fn new<U: SendToDevice>(device: &mut U) -> (r: Result<
        Keyboard,
        NotEnoughSpaceInTheCommandQueue,
    >)
        ensures
            r matches Ok(k) ==> {
                &&& k.wf()
                &&& !k.scancodes_enabled()
                &&& k.spec_decoder_setting() == ScancodeDecoderSetting::Set2
                &&& k.spec_pending().len() == 0
                &&& k.spec_in_flight() == Some(
                    Command::AckResponse { command: CommandReturnData::DEFAULT_DISABLE },
                )
                &&& final(device).sent() == old(device).sent().push(
                    CommandReturnData::DEFAULT_DISABLE,
                )
            },
            r is Ok,
    {
        let mut keyboard = Keyboard {
            commands: CommandQueue::new(),
            state: State::ScancodesDisabled,
            scancode_reader: ScancodeDecoder::new(),
        };
        match keyboard.set_defaults_and_disable(device) {
            Ok(()) => Ok(keyboard),
            Err(e) => Err(e),
        }
    }

    /// Queues the set-defaults-and-disable command and marks scancode
    /// reporting off.
    pub fn set_defaults_and_disable<U: SendToDevice>(&mut self, device: &mut U) -> (r: Result<
        (),
        NotEnoughSpaceInTheCommandQueue,
    >)
        requires
            old(self).wf(),
        ensures
            final(self).wf(),
            r is Ok <==> QUEUE_CAPACITY - old(self).spec_pending().len() >= 1,
            r is Err ==> session_unchanged(old(self), final(self)) && final(device).sent() == old(
                device,
            ).sent(),
            r is Ok ==> !final(self).scancodes_enabled() && final(self).spec_decoder_setting()
                == old(self).spec_decoder_setting() && session_enqueued(
                old(self),
                final(self),
                old(device).sent(),
                final(device).sent(),
                Command::AckResponse { command: CommandReturnData::DEFAULT_DISABLE },
            ),
    {
        if self.commands.space_available(1) {
            self.state = State::ScancodesDisabled;
            let _ = self.commands.add(Command::default_disable(), device);
            Ok(())
        } else {
            Err(NotEnoughSpaceInTheCommandQueue)
        }
    }

    /// Queues the set-defaults command and marks scancode reporting on.
    pub fn set_defaults_and_enable<U: SendToDevice>(&mut self, device: &mut U) -> (r: Result<
        (),
        NotEnoughSpaceInTheCommandQueue,
    >)
        requires
            old(self).wf(),
        ensures
            final(self).wf(),
            r is Ok <==> QUEUE_CAPACITY - old(self).spec_pending().len() >= 1,
            r is Err ==> session_unchanged(old(self), final(self)) && final(device).sent() == old(
                device,
            ).sent(),
            r is Ok ==> final(self).scancodes_enabled() && final(self).spec_decoder_setting()
                == old(self).spec_decoder_setting() && session_enqueued(
                old(self),
                final(self),
                old(device).sent(),
                final(device).sent(),
                Command::AckResponse { command: CommandReturnData::SET_DEFAULT },
            ),
    {
        if self.commands.space_available(1) {
            self.state = State::ScancodesEnabled;
            let _ = self.commands.add(Command::set_default(), device);
            Ok(())
        } else {
            Err(NotEnoughSpaceInTheCommandQueue)
        }
    }

    /// Queues the enable command and marks scancode reporting on.
    pub fn enable<U: SendToDevice>(&mut self, device: &mut U) -> (r: Result<
        (),
        NotEnoughSpaceInTheCommandQueue,
    >)
        requires
            old(self).wf(),
        ensures
            final(self).wf(),
            r is Ok <==> QUEUE_CAPACITY - old(self).spec_pending().len() >= 1,
            r is Err ==> session_unchanged(old(self), final(self)) && final(device).sent() == old(
                device,
            ).sent(),
            r is Ok ==> final(self).scancodes_enabled() && final(self).spec_decoder_setting()
                == old(self).spec_decoder_setting() && session_enqueued(
                old(self),
                final(self),
                old(device).sent(),
                final(device).sent(),
                Command::AckResponse { command: CommandReturnData::ENABLE },
            ),
    {
        if self.commands.space_available(1) {
            self.state = State::ScancodesEnabled;
            let _ = self.commands.add(Command::enable(), device);
            Ok(())
        } else {
            Err(NotEnoughSpaceInTheCommandQueue)
        }
    }

    /// Queues a status indicator LED update.
    pub fn set_status_indicators<U: SendToDevice>(
        &mut self,
        device: &mut U,
        indicators: StatusIndicators,
    ) -> (r: Result<(), NotEnoughSpaceInTheCommandQueue>)
        requires
            old(self).wf(),
        ensures
            final(self).wf(),
            r is Ok <==> QUEUE_CAPACITY - old(self).spec_pending().len() >= 1,
            r is Err ==> session_unchanged(old(self), final(self)) && final(device).sent() == old(
                device,
            ).sent(),
            r is Ok ==> final(self).scancodes_enabled() == old(self).scancodes_enabled() && final(self).spec_decoder_setting() == old(self).spec_decoder_setting() && session_enqueued(
                old(self),
                final(self),
                old(device).sent(),
                final(device).sent(),
                Command::SendCommandAndData {
                    command: CommandReturnData::SET_STATUS_INDICATORS,
                    data: indicators.spec_bits(),
                    state: crate::device::command_queue::SendCommandAndDataState::WaitAck1,
                },
            ),
    {
        if self.commands.space_available(1) {
            let _ = self.commands.add(Command::set_status_indicators(indicators.bits()), device);
            Ok(())
        } else {
            Err(NotEnoughSpaceInTheCommandQueue)
        }
    }

    /// Queues a scancode set 3 all-keys behaviour change.
    pub fn scancode_set_3_set_all_keys<U: SendToDevice>(
        &mut self,
        device: &mut U,
        set_all_keys: SetAllKeys,
    ) -> (r: Result<(), NotEnoughSpaceInTheCommandQueue>)
        requires
            old(self).wf(),
        ensures
            final(self).wf(),
            r is Ok <==> QUEUE_CAPACITY - old(self).spec_pending().len() >= 1,
            r is Err ==> session_unchanged(old(self), final(self)) && final(device).sent() == old(
                device,
            ).sent(),
            r is Ok ==> final(self).scancodes_enabled() == old(self).scancodes_enabled() && final(self).spec_decoder_setting() == old(self).spec_decoder_setting() && session_enqueued(
                old(self),
                final(self),
                old(device).sent(),
                final(device).sent(),
                Command::AckResponse { command: spec_set_all_keys_byte(set_all_keys) },
            ),
    {
        if self.commands.space_available(1) {
            let _ = self.commands.add(Command::scancode_set_3_set_all_keys(set_all_keys), device);
            Ok(())
        } else {
            Err(NotEnoughSpaceInTheCommandQueue)
        }
    }

    /// Queues a scancode set 3 behaviour change for one key.
    pub fn scancode_set_3_set_key_type<U: SendToDevice>(
        &mut self,
        device: &mut U,
        set_key_type: SetKeyType,
        scancode: u8,
    ) -> (r: Result<(), NotEnoughSpaceInTheCommandQueue>)
        requires
            old(self).wf(),
        ensures
            final(self).wf(),
            r is Ok <==> QUEUE_CAPACITY - old(self).spec_pending().len() >= 1,
            r is Err ==> session_unchanged(old(self), final(self)) && final(device).sent() == old(
                device,
            ).sent(),
            r is Ok ==> final(self).scancodes_enabled() == old(self).scancodes_enabled() && final(self).spec_decoder_setting() == old(self).spec_decoder_setting() && session_enqueued(
                old(self),
                final(self),
                old(device).sent(),
                final(device).sent(),
                Command::SendCommandAndDataSingleAck {
                    command: spec_set_key_type_byte(set_key_type),
                    data: scancode,
                    scancode_received_after_this_command: 0,
                    state: crate::device::command_queue::SendCommandAndDataState::WaitAck1,
                },
            ),
    {
        if self.commands.space_available(1) {
            let _ = self.commands.add(
                Command::scancode_set_3_set_key_type(set_key_type, scancode),
                device,
            );
            Ok(())
        } else {
            Err(NotEnoughSpaceInTheCommandQueue)
        }
    }

    /// Replaces the scancode decoder with a fresh one for `setting`.
    pub fn set_scancode_decoder(&mut self, setting: ScancodeDecoderSetting)
        ensures
            final(self).wf() == old(self).wf(),
            final(self).spec_decoder_setting() == setting,
            final(self).spec_pending() == old(self).spec_pending(),
            final(self).spec_in_flight() == old(self).spec_in_flight(),
            final(self).scancodes_enabled() == old(self).scancodes_enabled(),
    {
        self.scancode_reader.change_decoder(setting)
    }

    /// Queues a typematic delay and rate change.
    pub fn set_typematic_rate<U: SendToDevice>(
        &mut self,
        device: &mut U,
        delay: DelayMilliseconds,
        rate: RateValue,
    ) -> (r: Result<(), NotEnoughSpaceInTheCommandQueue>)
        requires
            old(self).wf(),
        ensures
            final(self).wf(),
            r is Ok <==> QUEUE_CAPACITY - old(self).spec_pending().len() >= 1,
            r is Err ==> session_unchanged(old(self), final(self)) && final(device).sent() == old(
                device,
            ).sent(),
            r is Ok ==> final(self).scancodes_enabled() == old(self).scancodes_enabled() && final(self).spec_decoder_setting() == old(self).spec_decoder_setting() && session_enqueued(
                old(self),
                final(self),
                old(device).sent(),
                final(device).sent(),
                Command::SendCommandAndData {
                    command: CommandReturnData::SET_TYPEMATIC_RATE,
                    data: spec_delay_bits(delay) | rate.spec_value(),
                    state: crate::device::command_queue::SendCommandAndDataState::WaitAck1,
                },
            ),
    {
        if self.commands.space_available(1) {
            let _ = self.commands.add(Command::set_typematic_rate(delay, rate), device);
            Ok(())
        } else {
            Err(NotEnoughSpaceInTheCommandQueue)
        }
    }

    /// Queues a read of the keyboard's two identification bytes.
    pub fn read_id<U: SendToDevice>(&mut self, device: &mut U) -> (r: Result<
        (),
        NotEnoughSpaceInTheCommandQueue,
    >)
        requires
            old(self).wf(),
        ensures
            final(self).wf(),
            r is Ok <==> QUEUE_CAPACITY - old(self).spec_pending().len() >= 1,
            r is Err ==> session_unchanged(old(self), final(self)) && final(device).sent() == old(
                device,
            ).sent(),
            r is Ok ==> final(self).scancodes_enabled() == old(self).scancodes_enabled() && final(self).spec_decoder_setting() == old(self).spec_decoder_setting() && session_enqueued(
                old(self),
                final(self),
                old(device).sent(),
                final(device).sent(),
                Command::AckResponseWithReturnTwoBytes {
                    command: CommandReturnData::READ_ID,
                    byte1: 0,
                    byte2: 0,
                    state: crate::device::command_queue::AckResponseWithReturnTwoBytesState::WaitAck,
                },
            ),
    {
        if self.commands.space_available(1) {
            let _ = self.commands.add(Command::read_id(), device);
            Ok(())
        } else {
            Err(NotEnoughSpaceInTheCommandQueue)
        }
    }

    /// Queues an echo request.
    pub fn echo<U: SendToDevice>(&mut self, device: &mut U) -> (r: Result<
        (),
        NotEnoughSpaceInTheCommandQueue,
    >)
        requires
            old(self).wf(),
        ensures
            final(self).wf(),
            r is Ok <==> QUEUE_CAPACITY - old(self).spec_pending().len() >= 1,
            r is Err ==> session_unchanged(old(self), final(self)) && final(device).sent() == old(
                device,
            ).sent(),
            r is Ok ==> final(self).scancodes_enabled() == old(self).scancodes_enabled() && final(self).spec_decoder_setting() == old(self).spec_decoder_setting() && session_enqueued(
                old(self),
                final(self),
                old(device).sent(),
                final(device).sent(),
                Command::Echo { command: CommandReturnData::ECHO },
            ),
    {
        if self.commands.space_available(1) {
            let _ = self.commands.add(Command::echo(), device);
            Ok(())
        } else {
            Err(NotEnoughSpaceInTheCommandQueue)
        }
    }

    /// Set keyboard scancode set.
    ///
    /// PS/2 controller scancode translation must be disabled when using
    /// this command.  Two commands are queued: the change, then a query of
    /// the active set to confirm it.
    pub fn set_alternate_scancode_set<U: SendToDevice>(
        &mut self,
        device: &mut U,
        scancode_setting: KeyboardScancodeSetting,
    ) -> (r: Result<(), NotEnoughSpaceInTheCommandQueue>)
        requires
            old(self).wf(),
        ensures
            final(self).wf(),
            r is Ok <==> QUEUE_CAPACITY - old(self).spec_pending().len() >= 2,
            r is Err ==> session_unchanged(old(self), final(self)) && final(device).sent() == old(
                device,
            ).sent(),
            r is Ok ==> final(self).scancodes_enabled() == old(self).scancodes_enabled() && final(self).spec_decoder_setting() == old(self).spec_decoder_setting() && ({
                let select = Command::SendCommandAndData {
                    command: CommandReturnData::SELECT_ALTERNATE_SCANCODES,
                    data: spec_scancode_setting_byte(scancode_setting),
                    state: crate::device::command_queue::SendCommandAndDataState::WaitAck1,
                };
                let query = Command::SendCommandAndDataAndReceiveResponse {
                    command: CommandReturnData::SELECT_ALTERNATE_SCANCODES,
                    data: 0,
                    response: 0,
                    state: crate::device::command_queue::SendCommandAndDataAndReceiveResponseState::WaitAck1,
                };
                if old(self).spec_in_flight() is None {
                    &&& final(self).spec_in_flight() == Some(select)
                    &&& final(self).spec_pending() == seq![query]
                    &&& final(device).sent() == old(device).sent().push(spec_command_code(select))
                } else {
                    &&& final(self).spec_in_flight() == old(self).spec_in_flight()
                    &&& final(self).spec_pending() == old(self).spec_pending().push(select).push(
                        query,
                    )
                    &&& final(device).sent() == old(device).sent()
                }
            }),
    {
        if self.commands.space_available(2) {
            let _ = self.commands.add(
                Command::set_alternate_scancodes(scancode_setting),
                device,
            );
            let _ = self.commands.add(Command::get_current_scancode_set(), device);
            proof {
                if old(self).spec_in_flight() is None {
                    assert(final(self).spec_pending() =~= seq![
                        (Command::SendCommandAndDataAndReceiveResponse {
                            command: CommandReturnData::SELECT_ALTERNATE_SCANCODES,
                            data: 0,
                            response: 0,
                            state: crate::device::command_queue::SendCommandAndDataAndReceiveResponseState::WaitAck1,
                        }),
                    ]);
                }
            }
            Ok(())
        } else {
            Err(NotEnoughSpaceInTheCommandQueue)
        }
    }

    /// Feeds the decoder one byte and wraps its outcome as a session
    /// result.
    fn decode_to_event(&mut self, data: u8) -> (r: Result<Option<KeyboardEvent>, KeyboardError>)
        ensures
            decode_shaped(r),
            final(self).wf() == old(self).wf(),
            final(self).spec_pending() == old(self).spec_pending(),
            final(self).spec_in_flight() == old(self).spec_in_flight(),
            final(self).scancodes_enabled() == old(self).scancodes_enabled(),
            final(self).spec_decoder_setting() == old(self).spec_decoder_setting(),
    {
        match self.scancode_reader.decode(data) {
            Ok(Some(ev)) => Ok(Some(KeyboardEvent::Key(ev))),
            Ok(None) => Ok(None),
            Err(e) => Err(KeyboardError::ScancodeParsingError(e)),
        }
    }

    /// Turns one raw controller byte into at most one keyboard-level
    /// event.
    ///
    /// The three sentinel codes are intercepted first: a key detection
    /// overrun and a failed basic assurance test are hard errors, and a
    /// completed basic assurance test forces the session enabled and the
    /// decoder back to scancode set 2.  With an idle queue a RESEND is
    /// swallowed and anything else goes to the scancode decoder.  With an
    /// active command the byte advances its handshake; leftover bytes go to
    /// the decoder, and finished commands are synthesized into events.
    pub fn receive_data<U: SendToDevice>(&mut self, new_data: u8, device: &mut U) -> (r: Result<
        Option<KeyboardEvent>,
        KeyboardError,
    >)
        requires
            old(self).wf(),
        ensures
            final(self).wf(),
            (new_data == FromKeyboard::KEY_DETECTION_OVERRUN_SCANCODE_SET_1 || new_data
                == FromKeyboard::KEY_DETECTION_OVERRUN_SCANCODE_SET_2_AND_3) ==> (r matches Err(
                KeyboardError::KeyDetectionError,
            )) && session_unchanged(old(self), final(self)) && final(device).sent() == old(
                device,
            ).sent(),
            new_data == FromKeyboard::BAT_FAILURE_CODE ==> (r matches Err(
                KeyboardError::BATCompletionFailure,
            )) && session_unchanged(old(self), final(self)) && final(device).sent() == old(
                device,
            ).sent(),
            new_data == FromKeyboard::BAT_COMPLETION_CODE ==> (r matches Ok(ev) && ev == Some(
                KeyboardEvent::BATCompleted,
            )) && final(self).scancodes_enabled() && final(self).spec_decoder_setting()
                == ScancodeDecoderSetting::Set2 && final(self).spec_pending() == old(
                self,
            ).spec_pending() && final(self).spec_in_flight() == old(self).spec_in_flight() && final(device).sent() == old(device).sent(),
            !is_sentinel(new_data) && old(self).spec_in_flight() is None && new_data
                == FromKeyboard::RESEND ==> (r matches Ok(None)) && session_unchanged(
                old(self),
                final(self),
            ) && final(device).sent() == old(device).sent(),
            !is_sentinel(new_data) && old(self).spec_in_flight() is None && new_data
                != FromKeyboard::RESEND ==> decode_shaped(r) && final(self).spec_pending() == old(
                self,
            ).spec_pending() && final(self).spec_in_flight() == old(self).spec_in_flight() && final(self).scancodes_enabled() == old(self).scancodes_enabled() && final(self).spec_decoder_setting() == old(self).spec_decoder_setting() && final(device).sent()
                == old(device).sent(),
            !is_sentinel(new_data) ==> (old(self).spec_in_flight() matches Some(cmd) ==> {
                let step = checker_step(cmd, new_data);
                &&& session_queue_stepped(
                    old(self),
                    final(self),
                    old(device).sent(),
                    final(device).sent(),
                    cmd,
                    new_data,
                )
                &&& final(self).scancodes_enabled() == old(self).scancodes_enabled()
                &&& (step.1 matches Some(Status::UnexpectedData(_)) ==> decode_shaped(r) && final(self).spec_decoder_setting() == old(self).spec_decoder_setting())
                &&& (step.1 matches Some(
                    Status::CommandFinished(Command::SendCommandAndDataSingleAck { .. }),
                ) ==> decode_shaped(r) && final(self).spec_decoder_setting() == old(
                    self,
                ).spec_decoder_setting())
                &&& (step.1 matches Some(
                    Status::CommandFinished(
                        Command::AckResponseWithReturnTwoBytes { command, byte1, byte2, .. },
                    ),
                ) ==> (command == CommandReturnData::READ_ID ==> (r matches Ok(ev) && ev == Some(
                    (KeyboardEvent::ID { byte1, byte2 }),
                )) && final(self).spec_decoder_setting() == old(self).spec_decoder_setting()))
                &&& (step.1 matches Some(
                    Status::CommandFinished(
                        Command::SendCommandAndDataAndReceiveResponse { command, response, .. },
                    ),
                ) ==> (command == CommandReturnData::SELECT_ALTERNATE_SCANCODES ==> if response
                    == 1 {
                    (r matches Ok(ev) && ev == Some(
                        KeyboardEvent::ScancodeSet(KeyboardScancodeSetting::Set1),
                    )) && final(self).spec_decoder_setting() == ScancodeDecoderSetting::Set1
                } else if response == 2 {
                    (r matches Ok(ev) && ev == Some(
                        KeyboardEvent::ScancodeSet(KeyboardScancodeSetting::Set2),
                    )) && final(self).spec_decoder_setting() == ScancodeDecoderSetting::Set2
                } else if response == 3 {
                    (r matches Ok(ev) && ev == Some(
                        KeyboardEvent::ScancodeSet(KeyboardScancodeSetting::Set3),
                    )) && final(self).spec_decoder_setting() == old(self).spec_decoder_setting()
                } else {
                    (r matches Err(e) && e == KeyboardError::UnknownScancodeSet(response)) && final(self).spec_decoder_setting() == old(self).spec_decoder_setting()
                }))
                &&& (step.1 matches Some(Status::CommandFinished(Command::Echo { .. })) ==> (
                r matches Ok(ev) && ev == Some(KeyboardEvent::Echo)) && final(self).spec_decoder_setting() == old(self).spec_decoder_setting())
                &&& (match step.1 {
                    None => r matches Ok(None) && final(self).spec_decoder_setting() == old(
                        self,
                    ).spec_decoder_setting(),
                    Some(Status::CommandInProgress) => r matches Ok(None) && final(self).spec_decoder_setting() == old(self).spec_decoder_setting(),
                    Some(Status::CommandFinished(finished)) => match finished {
                        Command::AckResponse { .. } => r matches Ok(None) && final(self).spec_decoder_setting() == old(self).spec_decoder_setting(),
                        Command::SendCommandAndData { .. } => r matches Ok(None) && final(self).spec_decoder_setting() == old(self).spec_decoder_setting(),
                        Command::AckResponseWithReturnTwoBytes { command, .. } => command
                            != CommandReturnData::READ_ID ==> r matches Ok(None),
                        Command::SendCommandAndDataAndReceiveResponse { command, .. } => command
                            != CommandReturnData::SELECT_ALTERNATE_SCANCODES ==> r matches Ok(
                            None,
                        ),
                        _ => true,
                    },
                    Some(Status::UnexpectedData(_)) => true,
                })
            }),
    {
        if new_data == FromKeyboard::KEY_DETECTION_OVERRUN_SCANCODE_SET_1 || new_data
            == FromKeyboard::KEY_DETECTION_OVERRUN_SCANCODE_SET_2_AND_3 {
            return Err(KeyboardError::KeyDetectionError);
        }
        if new_data == FromKeyboard::BAT_FAILURE_CODE {
            return Err(KeyboardError::BATCompletionFailure);
        }
        if new_data == FromKeyboard::BAT_COMPLETION_CODE {
            self.state = State::ScancodesEnabled;
            self.set_scancode_decoder(ScancodeDecoderSetting::Set2);
            return Ok(Some(KeyboardEvent::BATCompleted));
        }
        if self.commands.empty() {
            if new_data == FromKeyboard::RESEND {
                return Ok(None);
            }
            return self.decode_to_event(new_data);
        }
        match self.commands.receive_data(new_data, device) {
            Some(Status::CommandFinished(finished)) => match finished {
                Command::SendCommandAndDataSingleAck {
                    scancode_received_after_this_command: data,
                    ..
                } => self.decode_to_event(data),
                Command::AckResponseWithReturnTwoBytes { command, byte1, byte2, .. } => {
                    if command == CommandReturnData::READ_ID {
                        Ok(Some(KeyboardEvent::ID { byte1, byte2 }))
                    } else {
                        Ok(None)
                    }
                },
                Command::SendCommandAndDataAndReceiveResponse { command, response, .. } => {
                    if command == CommandReturnData::SELECT_ALTERNATE_SCANCODES {
                        if response == 1 {
                            self.set_scancode_decoder(ScancodeDecoderSetting::Set1);
                            Ok(Some(KeyboardEvent::ScancodeSet(KeyboardScancodeSetting::Set1)))
                        } else if response == 2 {
                            self.set_scancode_decoder(ScancodeDecoderSetting::Set2);
                            Ok(Some(KeyboardEvent::ScancodeSet(KeyboardScancodeSetting::Set2)))
                        } else if response == 3 {
                            Ok(Some(KeyboardEvent::ScancodeSet(KeyboardScancodeSetting::Set3)))
                        } else {
                            Err(KeyboardError::UnknownScancodeSet(response))
                        }
                    } else {
                        Ok(None)
                    }
                },
                Command::Echo { .. } => Ok(Some(KeyboardEvent::Echo)),
                Command::AckResponse { .. } => Ok(None),
                Command::SendCommandAndData { .. } => Ok(None),
            },
            Some(Status::UnexpectedData(data)) => self.decode_to_event(data),
            Some(Status::CommandInProgress) => Ok(None),
            None => Ok(None),
        }
    }
}

/// The three byte values the session intercepts before everything else:
/// both key detection overrun codes, the basic assurance test failure code
/// and its completion code.
pub open spec fn is_sentinel(byte: u8) -> bool {
    ||| byte == FromKeyboard::KEY_DETECTION_OVERRUN_SCANCODE_SET_1
    ||| byte == FromKeyboard::KEY_DETECTION_OVERRUN_SCANCODE_SET_2_AND_3
    ||| byte == FromKeyboard::BAT_FAILURE_CODE
    ||| byte == FromKeyboard::BAT_COMPLETION_CODE
}

} // verus!
