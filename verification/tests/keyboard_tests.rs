//! The keyboard session: sentinel handling, command issue, event
//! synthesis, and the scancode decoder path.

use pc_keyboard::{KeyCode, KeyState};
use ps2_driver::device::io::{RecordingDevice, SendToDevice};
use ps2_driver::device::keyboard::driver::{
    DelayMilliseconds, Keyboard, KeyboardError, KeyboardEvent, KeyboardScancodeSetting, RateValue,
    ScancodeDecoderSetting, SetAllKeys, SetKeyType,
};
use ps2_driver::device::keyboard::raw::StatusIndicators;

const ACK: u8 = 0xFA;

/// A fresh session with its initial disable command already acknowledged.
fn settled_session(device: &mut RecordingDevice) -> Keyboard {
    let mut keyboard = Keyboard::new(device).ok().unwrap();
    assert_eq!(device.bytes(), &vec![0xF5]);
    assert!(matches!(keyboard.receive_data(ACK, device), Ok(None)));
    keyboard
}

#[test]
fn a_new_session_disables_the_keyboard_first() {
    let mut device = RecordingDevice::new();
    let _keyboard = Keyboard::new(&mut device).ok().unwrap();
    assert_eq!(device.bytes(), &vec![0xF5]);
}

#[test]
fn bat_completion_enables_the_session_at_any_point() {
    let mut device = RecordingDevice::new();
    // a queue still busy with the initial command does not matter
    let mut keyboard = Keyboard::new(&mut device).ok().unwrap();
    assert_eq!(
        keyboard.receive_data(0xAA, &mut device),
        Ok(Some(KeyboardEvent::BATCompleted))
    );
    // and the same holds with an idle queue
    let mut device = RecordingDevice::new();
    let mut keyboard = settled_session(&mut device);
    keyboard.set_scancode_decoder(ScancodeDecoderSetting::Set1);
    assert_eq!(
        keyboard.receive_data(0xAA, &mut device),
        Ok(Some(KeyboardEvent::BATCompleted))
    );
}

#[test]
fn bat_failure_and_overrun_are_hard_errors() {
    let mut device = RecordingDevice::new();
    let mut keyboard = settled_session(&mut device);
    assert_eq!(
        keyboard.receive_data(0xFC, &mut device),
        Err(KeyboardError::BATCompletionFailure)
    );
    assert_eq!(
        keyboard.receive_data(0x00, &mut device),
        Err(KeyboardError::KeyDetectionError)
    );
    assert_eq!(
        keyboard.receive_data(0xFF, &mut device),
        Err(KeyboardError::KeyDetectionError)
    );
}

#[test]
fn resend_with_an_idle_queue_is_swallowed() {
    let mut device = RecordingDevice::new();
    let mut keyboard = settled_session(&mut device);
    assert!(matches!(keyboard.receive_data(0xFE, &mut device), Ok(None)));
    assert_eq!(device.bytes(), &vec![0xF5]);
}

#[test]
fn scancodes_decode_to_key_events_when_the_queue_is_idle() {
    let mut device = RecordingDevice::new();
    let mut keyboard = settled_session(&mut device);
    // scancode set 2 make code for the letter A
    match keyboard.receive_data(0x1C, &mut device) {
        Ok(Some(KeyboardEvent::Key(event))) => {
            assert_eq!(event.code, KeyCode::A);
            assert_eq!(event.state, KeyState::Down);
        },
        other => panic!("expected a key event, got {:?}", other),
    }
}

#[test]
fn read_id_emits_the_id_event() {
    let mut device = RecordingDevice::new();
    let mut keyboard = settled_session(&mut device);
    assert!(keyboard.read_id(&mut device).is_ok());
    assert_eq!(device.bytes(), &vec![0xF5, 0xF2]);
    assert!(matches!(keyboard.receive_data(ACK, &mut device), Ok(None)));
    assert!(matches!(keyboard.receive_data(0xAB, &mut device), Ok(None)));
    assert_eq!(
        keyboard.receive_data(0x83, &mut device),
        Ok(Some(KeyboardEvent::ID { byte1: 0xAB, byte2: 0x83 }))
    );
}

#[test]
fn echo_emits_the_echo_event() {
    let mut device = RecordingDevice::new();
    let mut keyboard = settled_session(&mut device);
    assert!(keyboard.echo(&mut device).is_ok());
    assert_eq!(device.bytes(), &vec![0xF5, 0xEE]);
    assert_eq!(
        keyboard.receive_data(0xEE, &mut device),
        Ok(Some(KeyboardEvent::Echo))
    );
}

#[test]
fn set_alternate_scancode_set_queries_the_set_back() {
    let mut device = RecordingDevice::new();
    let mut keyboard = settled_session(&mut device);
    assert!(keyboard
        .set_alternate_scancode_set(&mut device, KeyboardScancodeSetting::Set1)
        .is_ok());
    // the select command starts at once; the query waits behind it
    assert_eq!(device.bytes(), &vec![0xF5, 0xF0]);
    assert!(matches!(keyboard.receive_data(ACK, &mut device), Ok(None)));
    assert_eq!(device.bytes(), &vec![0xF5, 0xF0, 0x01]);
    // the second acknowledgement finishes the select and starts the query
    assert!(matches!(keyboard.receive_data(ACK, &mut device), Ok(None)));
    assert_eq!(device.bytes(), &vec![0xF5, 0xF0, 0x01, 0xF0]);
    assert!(matches!(keyboard.receive_data(ACK, &mut device), Ok(None)));
    assert_eq!(device.bytes(), &vec![0xF5, 0xF0, 0x01, 0xF0, 0x00]);
    assert!(matches!(keyboard.receive_data(ACK, &mut device), Ok(None)));
    assert_eq!(
        keyboard.receive_data(1, &mut device),
        Ok(Some(KeyboardEvent::ScancodeSet(KeyboardScancodeSetting::Set1)))
    );
}

#[test]
fn an_unknown_scancode_set_report_is_an_error() {
    let mut device = RecordingDevice::new();
    let mut keyboard = settled_session(&mut device);
    assert!(keyboard
        .set_alternate_scancode_set(&mut device, KeyboardScancodeSetting::Set3)
        .is_ok());
    assert!(matches!(keyboard.receive_data(ACK, &mut device), Ok(None)));
    assert!(matches!(keyboard.receive_data(ACK, &mut device), Ok(None)));
    assert!(matches!(keyboard.receive_data(ACK, &mut device), Ok(None)));
    assert!(matches!(keyboard.receive_data(ACK, &mut device), Ok(None)));
    assert_eq!(
        keyboard.receive_data(9, &mut device),
        Err(KeyboardError::UnknownScancodeSet(9))
    );
}

#[test]
fn command_methods_transmit_their_wire_bytes() {
    let mut device = RecordingDevice::new();
    let mut keyboard = settled_session(&mut device);
    assert!(keyboard.enable(&mut device).is_ok());
    assert_eq!(device.bytes().last(), Some(&0xF4));
    assert!(matches!(keyboard.receive_data(ACK, &mut device), Ok(None)));
    assert!(keyboard.set_defaults_and_enable(&mut device).is_ok());
    assert_eq!(device.bytes().last(), Some(&0xF6));
    assert!(matches!(keyboard.receive_data(ACK, &mut device), Ok(None)));
    assert!(keyboard
        .set_status_indicators(&mut device, StatusIndicators::from_bits_truncate(0x05))
        .is_ok());
    assert_eq!(device.bytes().last(), Some(&0xED));
    assert!(matches!(keyboard.receive_data(ACK, &mut device), Ok(None)));
    assert_eq!(device.bytes().last(), Some(&0x05));
    assert!(matches!(keyboard.receive_data(ACK, &mut device), Ok(None)));
    assert!(keyboard
        .scancode_set_3_set_all_keys(&mut device, SetAllKeys::Typematic)
        .is_ok());
    assert_eq!(device.bytes().last(), Some(&0xF7));
    assert!(matches!(keyboard.receive_data(ACK, &mut device), Ok(None)));
    assert!(keyboard
        .scancode_set_3_set_key_type(&mut device, SetKeyType::Make, 0x1C)
        .is_ok());
    assert_eq!(device.bytes().last(), Some(&0xFD));
    assert!(matches!(keyboard.receive_data(ACK, &mut device), Ok(None)));
    assert_eq!(device.bytes().last(), Some(&0x1C));
    assert!(keyboard
        .set_typematic_rate(&mut device, DelayMilliseconds::Delay750, RateValue::rate_max())
        .is_ok());
    // the set-key-type command treats the next byte as a leftover
    // scancode, finishing on it, so the typematic command queues behind it
    assert!(matches!(keyboard.receive_data(0xF0, &mut device), Ok(_)));
    assert_eq!(device.bytes().last(), Some(&0xF3));
}

#[test]
fn a_full_queue_refuses_further_commands() {
    let mut device = RecordingDevice::new();
    let mut keyboard = Keyboard::new(&mut device).ok().unwrap();
    // the initial command is in flight; fill all queue slots behind it
    for _ in 0..8 {
        assert!(keyboard.echo(&mut device).is_ok());
    }
    assert!(keyboard.echo(&mut device).is_err());
    assert!(keyboard.read_id(&mut device).is_err());
    // two slots are needed for the scancode set change
    let mut device2 = RecordingDevice::new();
    let mut keyboard2 = Keyboard::new(&mut device2).ok().unwrap();
    for _ in 0..7 {
        assert!(keyboard2.echo(&mut device2).is_ok());
    }
    assert!(keyboard2
        .set_alternate_scancode_set(&mut device2, KeyboardScancodeSetting::Set2)
        .is_err());
    assert!(keyboard2.echo(&mut device2).is_ok());
}

#[test]
fn unexpected_bytes_during_a_command_reach_the_decoder() {
    let mut device = RecordingDevice::new();
    let mut keyboard = settled_session(&mut device);
    assert!(keyboard.enable(&mut device).is_ok());
    // a scancode interleaved with the handshake is decoded, not lost
    match keyboard.receive_data(0x1C, &mut device) {
        Ok(Some(KeyboardEvent::Key(event))) => {
            assert_eq!(event.code, KeyCode::A);
        },
        other => panic!("expected a key event, got {:?}", other),
    }
    // the enable command is still pending and still finishes
    assert!(matches!(keyboard.receive_data(ACK, &mut device), Ok(None)));
}

#[test]
fn status_indicator_bits() {
    let mut indicators = StatusIndicators::empty();
    assert_eq!(indicators.bits(), 0);
    indicators.set(0x02, true);
    indicators.set(0x04, true);
    assert_eq!(indicators.bits(), 0x06);
    assert!(indicators.contains(0x02));
    indicators.set(0x02, false);
    assert!(!indicators.contains(0x02));
    // undefined bits are dropped on construction
    assert_eq!(StatusIndicators::from_bits_truncate(0xFF).bits(), 0x07);
}

#[test]
fn an_undecodable_scancode_is_a_parsing_error() {
    let mut device = RecordingDevice::new();
    let mut keyboard = settled_session(&mut device);
    // no scancode set 2 code starts with this byte
    assert!(matches!(
        keyboard.receive_data(0x02, &mut device),
        Err(KeyboardError::ScancodeParsingError(_))
    ));
}
