//! The command queue, the per-command handshake checker, and the device
//! identification machine, driven against the recording device.

use ps2_driver::device::command_queue::{
    CapacityError, Command, CommandChecker, CommandQueue, Status, QUEUE_CAPACITY,
};
use ps2_driver::device::identify::{Device, DeviceIdentifier};
use ps2_driver::device::io::{RecordingDevice, SendToDevice};
use ps2_driver::device::keyboard::driver::{DelayMilliseconds, RateValue, SetAllKeys, SetKeyType};

const ACK: u8 = 0xFA;
const RESEND: u8 = 0xFE;

#[test]
fn add_starts_the_first_command_at_once() {
    let mut queue = CommandQueue::new();
    let mut device = RecordingDevice::new();
    assert!(queue.empty());
    assert!(queue.add(Command::enable(), &mut device).is_ok());
    assert!(!queue.empty());
    assert_eq!(device.bytes(), &vec![0xF4]);
}

#[test]
fn add_refuses_the_command_past_capacity() {
    let mut queue = CommandQueue::new();
    let mut device = RecordingDevice::new();
    // one in flight, then the queue fills up to its capacity
    for _ in 0..QUEUE_CAPACITY + 1 {
        assert!(queue.add(Command::enable(), &mut device).is_ok());
    }
    let rejected = queue.add(Command::echo(), &mut device);
    assert_eq!(rejected, Err(CapacityError(Command::echo())));
    // the refused add changed nothing visible: only the first command was
    // ever transmitted, and there is still no room
    assert_eq!(device.bytes(), &vec![0xF4]);
    assert!(!queue.space_available(1));
    assert!(queue.space_available(0));
}

#[test]
fn space_available_counts_free_slots() {
    let mut queue = CommandQueue::new();
    let mut device = RecordingDevice::new();
    assert!(queue.space_available(QUEUE_CAPACITY));
    assert!(queue.add(Command::enable(), &mut device).is_ok());
    // the first command went in flight without occupying a slot
    assert!(queue.space_available(QUEUE_CAPACITY));
    assert!(queue.add(Command::echo(), &mut device).is_ok());
    assert!(!queue.space_available(QUEUE_CAPACITY));
    assert!(queue.space_available(QUEUE_CAPACITY - 1));
}

#[test]
fn read_id_walks_through_its_three_reply_bytes() {
    let mut queue = CommandQueue::new();
    let mut device = RecordingDevice::new();
    assert!(queue.add(Command::read_id(), &mut device).is_ok());
    assert_eq!(device.bytes(), &vec![0xF2]);
    assert!(matches!(
        queue.receive_data(ACK, &mut device),
        Some(Status::CommandInProgress)
    ));
    assert!(matches!(
        queue.receive_data(0xAB, &mut device),
        Some(Status::CommandInProgress)
    ));
    match queue.receive_data(0x83, &mut device) {
        Some(Status::CommandFinished(Command::AckResponseWithReturnTwoBytes {
            command,
            byte1,
            byte2,
            ..
        })) => {
            assert_eq!(command, 0xF2);
            assert_eq!(byte1, 0xAB);
            assert_eq!(byte2, 0x83);
        },
        other => panic!("unexpected status: {:?}", other),
    }
    assert!(queue.empty());
}

#[test]
fn resend_repeats_the_command_byte_before_the_first_ack() {
    let mut queue = CommandQueue::new();
    let mut device = RecordingDevice::new();
    let rate = Command::set_typematic_rate(DelayMilliseconds::Delay500, RateValue::rate_default());
    assert!(queue.add(rate, &mut device).is_ok());
    assert_eq!(device.bytes(), &vec![0xF3]);
    // RESEND before the first acknowledgement repeats the command byte
    assert!(queue.receive_data(RESEND, &mut device).is_none());
    assert_eq!(device.bytes(), &vec![0xF3, 0xF3]);
    // the acknowledgement releases the payload: delay and rate in one byte
    assert!(matches!(
        queue.receive_data(ACK, &mut device),
        Some(Status::CommandInProgress)
    ));
    assert_eq!(device.bytes(), &vec![0xF3, 0xF3, 0x2B]);
    // RESEND after the payload repeats the payload, not the command
    assert!(matches!(
        queue.receive_data(RESEND, &mut device),
        Some(Status::CommandInProgress)
    ));
    assert_eq!(device.bytes(), &vec![0xF3, 0xF3, 0x2B, 0x2B]);
    assert!(matches!(
        queue.receive_data(ACK, &mut device),
        Some(Status::CommandFinished(_))
    ));
    assert!(queue.empty());
}

#[test]
fn resend_never_advances_an_echo_or_plain_ack_command() {
    let mut checker = CommandChecker::new();
    let mut device = RecordingDevice::new();
    checker.send_new_command(Command::echo(), &mut device);
    assert!(checker.receive_data(RESEND, &mut device).is_none());
    assert!(checker.receive_data(RESEND, &mut device).is_none());
    assert_eq!(device.bytes(), &vec![0xEE, 0xEE, 0xEE]);
    // the echoed sentinel still finishes the command afterwards
    assert!(matches!(
        checker.receive_data(0xEE, &mut device),
        Some(Status::CommandFinished(Command::Echo { .. }))
    ));
    assert!(checker.current_command().is_none());
}

#[test]
fn unexpected_bytes_are_reported_and_keep_the_command_pending() {
    let mut checker = CommandChecker::new();
    let mut device = RecordingDevice::new();
    checker.send_new_command(Command::enable(), &mut device);
    assert!(matches!(
        checker.receive_data(0x1C, &mut device),
        Some(Status::UnexpectedData(0x1C))
    ));
    assert!(checker.current_command().is_some());
    assert!(matches!(
        checker.receive_data(ACK, &mut device),
        Some(Status::CommandFinished(_))
    ));
}

#[test]
fn an_idle_checker_reports_nothing() {
    let mut checker = CommandChecker::new();
    let mut device = RecordingDevice::new();
    assert!(checker.receive_data(ACK, &mut device).is_none());
    assert!(device.bytes().is_empty());
}

#[test]
fn a_finished_command_starts_the_next_queued_one() {
    let mut queue = CommandQueue::new();
    let mut device = RecordingDevice::new();
    assert!(queue.add(Command::default_disable(), &mut device).is_ok());
    assert!(queue.add(Command::enable(), &mut device).is_ok());
    assert_eq!(device.bytes(), &vec![0xF5]);
    assert!(matches!(
        queue.receive_data(ACK, &mut device),
        Some(Status::CommandFinished(_))
    ));
    // the enable command was popped and its command byte transmitted
    assert_eq!(device.bytes(), &vec![0xF5, 0xF4]);
    assert!(!queue.empty());
}

#[test]
fn get_current_scancode_set_reads_back_the_response() {
    let mut queue = CommandQueue::new();
    let mut device = RecordingDevice::new();
    assert!(queue.add(Command::get_current_scancode_set(), &mut device).is_ok());
    assert_eq!(device.bytes(), &vec![0xF0]);
    assert!(matches!(
        queue.receive_data(ACK, &mut device),
        Some(Status::CommandInProgress)
    ));
    // the payload asking for the current set is the null byte
    assert_eq!(device.bytes(), &vec![0xF0, 0x00]);
    assert!(matches!(
        queue.receive_data(ACK, &mut device),
        Some(Status::CommandInProgress)
    ));
    match queue.receive_data(2, &mut device) {
        Some(Status::CommandFinished(Command::SendCommandAndDataAndReceiveResponse {
            response,
            ..
        })) => assert_eq!(response, 2),
        other => panic!("unexpected status: {:?}", other),
    }
}

#[test]
fn command_factories_carry_the_wire_bytes() {
    assert!(matches!(Command::default_disable(), Command::AckResponse { command: 0xF5 }));
    assert!(matches!(Command::set_default(), Command::AckResponse { command: 0xF6 }));
    assert!(matches!(Command::enable(), Command::AckResponse { command: 0xF4 }));
    assert!(matches!(Command::echo(), Command::Echo { command: 0xEE }));
    assert!(matches!(
        Command::set_status_indicators(0x05),
        Command::SendCommandAndData { command: 0xED, data: 0x05, .. }
    ));
    assert!(matches!(
        Command::scancode_set_3_set_all_keys(SetAllKeys::Make),
        Command::AckResponse { command: 0xF9 }
    ));
    assert!(matches!(
        Command::scancode_set_3_set_key_type(SetKeyType::MakeSlashBreak, 0x33),
        Command::SendCommandAndDataSingleAck { command: 0xFC, data: 0x33, .. }
    ));
    // delay bits or-ed with the rate bits: 500 ms and 10,9 Hz give 0x2B
    assert!(matches!(
        Command::set_typematic_rate(DelayMilliseconds::Delay500, RateValue::rate_default()),
        Command::SendCommandAndData { command: 0xF3, data: 0x2B, .. }
    ));
}

#[test]
fn rate_value_accessors() {
    assert_eq!(RateValue::rate_max().value(), 0x00);
    assert_eq!(RateValue::rate_min().value(), 0x1F);
    assert_eq!(RateValue::rate_default().value(), 0x0B);
    assert_eq!(RateValue::new(0x15).value(), 0x15);
}

#[test]
fn identification_recognizes_a_keyboard() {
    let mut identifier = DeviceIdentifier::new();
    let mut device = RecordingDevice::new();
    identifier.start_identification(&mut device);
    assert_eq!(device.bytes(), &vec![0xF5]);
    assert!(identifier.byte_received(&mut device, ACK).is_none());
    assert_eq!(device.bytes(), &vec![0xF5, 0xF2]);
    assert!(identifier.byte_received(&mut device, ACK).is_none());
    assert!(identifier.byte_received(&mut device, 0xAB).is_none());
    assert!(matches!(
        identifier.byte_received(&mut device, 0x83),
        Some(Device::Keyboard)
    ));
    // the exchange is over; further bytes conclude nothing
    assert!(identifier.byte_received(&mut device, 0x55).is_none());
}

#[test]
fn identification_reports_unknown_id_pairs() {
    let mut identifier = DeviceIdentifier::new();
    let mut device = RecordingDevice::new();
    identifier.start_identification(&mut device);
    assert!(identifier.byte_received(&mut device, ACK).is_none());
    assert!(identifier.byte_received(&mut device, ACK).is_none());
    assert!(identifier.byte_received(&mut device, 0x12).is_none());
    match identifier.byte_received(&mut device, 0x34) {
        Some(Device::UnknownID { first_byte, second_byte }) => {
            assert_eq!(first_byte, 0x12);
            assert_eq!(second_byte, 0x34);
        },
        other => panic!("unexpected conclusion: {:?}", other.is_some()),
    }
}

#[test]
fn identification_waits_for_acknowledgements() {
    let mut identifier = DeviceIdentifier::new();
    let mut device = RecordingDevice::new();
    identifier.start_identification(&mut device);
    // a byte that is no acknowledgement does not advance the exchange
    assert!(identifier.byte_received(&mut device, 0x42).is_none());
    assert_eq!(device.bytes(), &vec![0xF5]);
    assert!(identifier.byte_received(&mut device, ACK).is_none());
    assert_eq!(device.bytes(), &vec![0xF5, 0xF2]);
}

#[test]
fn recording_device_records_in_order() {
    let mut device = RecordingDevice::new();
    device.send(1);
    device.send(2);
    device.send(3);
    assert_eq!(device.bytes(), &vec![1, 2, 3]);
}
