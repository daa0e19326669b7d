//! Controller protocol scenarios, driven against the scripted port: every
//! assertion on the recorded writes exercises exactly the write sequences
//! the driver contracts promise.

use ps2_driver::controller::driver::debug::DebugMode;
use ps2_driver::controller::driver::{
    DeviceData, DeviceInterfaceError, DeviceSendError, EnableDevice, InitController,
    InterfaceError, WaitTimeout,
};
use ps2_driver::controller::io::ScriptedPort;
use ps2_driver::controller::raw::CONTROLLER_RAM_SIZE;
use ps2_driver::device::io::{KeyboardPort, SendToDevice};

const CMD: u16 = 0x64;
const DATA: u16 = 0x60;

/// Status reads consumed by one command that waits for processing only:
/// one wait before the write, one after.
fn accept(script: &mut Vec<u8>) {
    script.push(0);
    script.push(0);
}

/// Status reads consumed by one command that returns a byte: the stale
/// check, two waits, and the poll that reports controller data.
fn respond(script: &mut Vec<u8>) {
    script.push(0);
    script.push(0);
    script.push(0);
    script.push(1);
}

/// Status reads consumed by one full initialization sequence.
fn init_script(script: &mut Vec<u8>) {
    accept(script); // disable auxiliary interface
    accept(script); // disable keyboard interface
    respond(script); // read command byte
    accept(script); // write command byte
}

#[test]
fn start_init_write_sequence() {
    let mut status = Vec::new();
    init_script(&mut status);
    let port = ScriptedPort::new(status, vec![0x77]);
    let controller = InitController::start_init(port).ok().unwrap();
    let port = controller.into_port_io();
    // the command byte is written back with both interrupt bits cleared
    assert_eq!(
        port.writes(),
        vec![(CMD, 0xA7), (CMD, 0xAD), (CMD, 0x20), (CMD, 0x60), (DATA, 0x74)]
    );
}

#[test]
fn self_test_preserves_command_byte() {
    let mut status = Vec::new();
    init_script(&mut status);
    respond(&mut status); // read command byte
    respond(&mut status); // self test
    accept(&mut status); // restore command byte
    let command_byte: u8 = 0x65;
    let port = ScriptedPort::new(status, vec![0x65, command_byte, 0x55]);
    let mut controller = InitController::start_init(port).ok().unwrap();
    assert!(controller.self_test().is_ok());
    let port = controller.into_port_io();
    let writes = port.writes();
    // the last write restores exactly the byte the controller returned
    assert_eq!(
        &writes[5..],
        &[(CMD, 0x20), (CMD, 0xAA), (CMD, 0x60), (DATA, command_byte)]
    );
}

#[test]
fn self_test_reports_the_failure_byte() {
    let mut status = Vec::new();
    init_script(&mut status);
    respond(&mut status);
    respond(&mut status);
    accept(&mut status);
    let port = ScriptedPort::new(status, vec![0, 0, 0x65]);
    let mut controller = InitController::start_init(port).ok().unwrap();
    let result = controller.self_test();
    assert_eq!(
        result,
        Err(ps2_driver::controller::driver::SelfTestError::Failed(0x65))
    );
}

#[test]
fn interface_tests_decode_their_result_byte() {
    let mut status = Vec::new();
    init_script(&mut status);
    respond(&mut status);
    respond(&mut status);
    let port = ScriptedPort::new(status, vec![0, 0, 3]);
    let mut controller = InitController::start_init(port).ok().unwrap();
    assert!(controller.keyboard_interface_test().is_ok());
    assert_eq!(
        controller.auxiliary_device_interface_test(),
        Err(DeviceInterfaceError::DataLineLow)
    );
    let port = controller.into_port_io();
    let writes = port.writes();
    assert_eq!(&writes[5..], &[(CMD, 0xAB), (CMD, 0xA9)]);
}

#[test]
fn enable_keyboard_gates_runtime_sends() {
    let mut status = Vec::new();
    init_script(&mut status);
    respond(&mut status); // keyboard interface test
    accept(&mut status); // enable keyboard interface
    status.push(0); // wait before the keyboard data write
    let port = ScriptedPort::new(status, vec![0, 0]);
    let controller = InitController::start_init(port).ok().unwrap();
    let mut enabled = controller.enable_devices(EnableDevice::Keyboard).ok().unwrap();
    assert!(matches!(enabled.devices(), EnableDevice::Keyboard));
    assert!(enabled.send_to_keyboard(0xF4).is_ok());
    assert_eq!(
        enabled.send_to_auxiliary_device(0x12),
        Err(DeviceSendError::NotEnabled)
    );
    let port = enabled.into_port_io();
    let writes = port.writes();
    assert_eq!(&writes[5..], &[(CMD, 0xAB), (CMD, 0xAE), (DATA, 0xF4)]);
}

#[test]
fn failed_interface_test_returns_the_handle_and_the_error() {
    let mut status = Vec::new();
    init_script(&mut status);
    respond(&mut status); // keyboard interface test answers 2
    respond(&mut status); // the returned handle still works: next test answers 0
    let port = ScriptedPort::new(status, vec![0, 2, 0]);
    let controller = InitController::start_init(port).ok().unwrap();
    let (mut handle, error) = match controller.enable_devices(EnableDevice::Keyboard) {
        Err(pair) => pair,
        Ok(_) => panic!("the interface test failure must refuse the transition"),
    };
    assert_eq!(
        error,
        InterfaceError::Keyboard(DeviceInterfaceError::ClockLineHigh)
    );
    assert!(handle.keyboard_interface_test().is_ok());
    // only the two test commands were ever written: the failed enable sent
    // no enable command, so no partial state leaked
    let port = handle.into_port_io();
    let writes = port.writes();
    assert_eq!(&writes[5..], &[(CMD, 0xAB), (CMD, 0xAB)]);
}

#[test]
fn enable_disable_enable_cycle_restores_capabilities() {
    let mut status = Vec::new();
    init_script(&mut status);
    // first enable of keyboard and auxiliary device, with interrupts
    respond(&mut status); // keyboard test
    respond(&mut status); // auxiliary test
    accept(&mut status); // enable keyboard interface
    accept(&mut status); // enable auxiliary interface
    respond(&mut status); // read command byte
    accept(&mut status); // write command byte with interrupt bits
    // disabling from an interrupt-enabled handle re-runs initialization
    init_script(&mut status);
    // second enable with the same selector
    respond(&mut status);
    respond(&mut status);
    accept(&mut status);
    accept(&mut status);
    respond(&mut status);
    accept(&mut status);
    status.push(0); // wait before the keyboard data write
    accept(&mut status); // the auxiliary send
    let data = vec![0x77, 0, 0, 0, 0x77, 0, 0, 0];
    let port = ScriptedPort::new(status, data);
    let controller = InitController::start_init(port).ok().unwrap();
    let selector = EnableDevice::KeyboardAndAuxiliaryDevice;
    let first = controller.enable_devices_and_interrupts(selector).ok().unwrap();
    assert!(matches!(first.devices(), EnableDevice::KeyboardAndAuxiliaryDevice));
    let controller = first.disable_devices().ok().unwrap();
    let mut again = controller.enable_devices_and_interrupts(selector).ok().unwrap();
    assert!(matches!(again.devices(), EnableDevice::KeyboardAndAuxiliaryDevice));
    assert!(again.send_to_keyboard(0xF4).is_ok());
    assert!(again.send_to_auxiliary_device(0xFF).is_ok());
}

#[test]
fn interrupt_bits_are_set_when_asked() {
    let mut status = Vec::new();
    init_script(&mut status);
    respond(&mut status); // keyboard test
    accept(&mut status); // enable keyboard interface
    respond(&mut status); // read command byte
    accept(&mut status); // write it back
    let port = ScriptedPort::new(status, vec![0, 0, 0x74]);
    let controller = InitController::start_init(port).ok().unwrap();
    let enabled = controller.enable_devices_and_interrupts(EnableDevice::Keyboard).ok().unwrap();
    let port = enabled.into_port_io();
    let writes = port.writes();
    // test, enable, then the command byte rewrite whose final write carries
    // the keyboard interrupt enable bit
    assert_eq!(
        &writes[5..],
        &[(CMD, 0xAB), (CMD, 0xAE), (CMD, 0x20), (CMD, 0x60), (DATA, 0x75)]
    );
}

#[test]
fn read_data_tags_the_owner() {
    let mut status = Vec::new();
    init_script(&mut status);
    respond(&mut status); // keyboard test
    accept(&mut status); // enable keyboard interface
    status.push(0x01); // keyboard data pending
    status.push(0x21); // auxiliary data pending
    status.push(0x00); // nothing pending
    let port = ScriptedPort::new(status, vec![0, 0, 0x42, 0x99]);
    let controller = InitController::start_init(port).ok().unwrap();
    let mut enabled = controller.enable_devices(EnableDevice::Keyboard).ok().unwrap();
    assert!(matches!(enabled.read_data(), Some(DeviceData::Keyboard(0x42))));
    assert!(matches!(enabled.read_data(), Some(DeviceData::AuxiliaryDevice(0x99))));
    assert!(enabled.read_data().is_none());
}

#[test]
fn reset_cpu_pulses_the_reset_line() {
    let mut status = Vec::new();
    init_script(&mut status);
    accept(&mut status);
    let port = ScriptedPort::new(status, vec![0]);
    let mut controller = InitController::start_init(port).ok().unwrap();
    assert!(controller.reset_cpu().is_ok());
    let port = controller.into_port_io();
    assert_eq!(port.writes().last(), Some(&(CMD, 0xFE)));
}

#[test]
fn ram_reads_every_byte_in_order() {
    let mut status = Vec::new();
    init_script(&mut status);
    let mut data = vec![0u8];
    for i in 0..CONTROLLER_RAM_SIZE {
        respond(&mut status);
        data.push((i as u8) + 7);
    }
    let port = ScriptedPort::new(status, data);
    let mut controller = InitController::start_init(port).ok().unwrap();
    let mut ram = [0u8; CONTROLLER_RAM_SIZE];
    assert!(controller.ram(&mut ram).is_ok());
    for i in 0..CONTROLLER_RAM_SIZE {
        assert_eq!(ram[i], (i as u8) + 7);
    }
    let port = controller.into_port_io();
    let writes = port.writes();
    for i in 0..CONTROLLER_RAM_SIZE {
        assert_eq!(writes[5 + i], (CMD, 0x21 + i as u8));
    }
}

#[test]
fn write_ram_writes_every_byte_in_order() {
    let mut status = Vec::new();
    init_script(&mut status);
    for _ in 0..CONTROLLER_RAM_SIZE {
        accept(&mut status);
    }
    let port = ScriptedPort::new(status, vec![0]);
    let mut controller = InitController::start_init(port).ok().unwrap();
    let mut ram = [0u8; CONTROLLER_RAM_SIZE];
    for i in 0..CONTROLLER_RAM_SIZE {
        ram[i] = 0x80 + i as u8;
    }
    assert!(controller.write_ram(&ram).is_ok());
    let port = controller.into_port_io();
    let writes = port.writes();
    for i in 0..CONTROLLER_RAM_SIZE {
        assert_eq!(writes[5 + 2 * i], (CMD, 0x61 + i as u8));
        assert_eq!(writes[5 + 2 * i + 1], (DATA, 0x80 + i as u8));
    }
}

#[test]
fn scancode_translation_rewrites_the_translate_bit() {
    let mut status = Vec::new();
    init_script(&mut status);
    respond(&mut status);
    accept(&mut status);
    let port = ScriptedPort::new(status, vec![0, 0x04]);
    let mut controller = InitController::start_init(port).ok().unwrap();
    assert!(controller.scancode_translation(true).is_ok());
    let port = controller.into_port_io();
    let writes = port.writes();
    assert_eq!(&writes[5..], &[(CMD, 0x20), (CMD, 0x60), (DATA, 0x44)]);
}

#[test]
fn a_controller_that_stays_busy_times_out() {
    let port = ScriptedPort::new(vec![2; 100000], vec![]);
    let mut debug = DebugMode::new(port);
    assert_eq!(
        debug.send_controller_command_and_wait_processing(0x20),
        Err(WaitTimeout)
    );
    let port = debug.into_port_io();
    // nothing was ever written while the input buffer stayed full
    assert!(port.writes().is_empty());
}

#[test]
fn debug_mode_forwards_the_raw_helpers() {
    let mut status = Vec::new();
    accept(&mut status); // plain command
    accept(&mut status); // command with data
    respond(&mut status); // command with response
    let port = ScriptedPort::new(status, vec![0x3C]);
    let mut debug = DebugMode::new(port);
    assert!(debug.send_controller_command_and_wait_processing(0xAD).is_ok());
    assert!(debug.send_controller_command_and_write_data(0xD1, 0x5A).is_ok());
    assert_eq!(debug.send_controller_command_and_wait_response(0x20), Ok(0x3C));
    let port = debug.into_port_io();
    assert_eq!(
        port.writes(),
        vec![(CMD, 0xAD), (CMD, 0xD1), (DATA, 0x5A), (CMD, 0x20)]
    );
    assert_eq!(port.data_reads(), vec![0x3C]);
}

#[test]
fn status_method_decodes_the_live_register() {
    let mut status = Vec::new();
    init_script(&mut status);
    status.push(0x15);
    let port = ScriptedPort::new(status, vec![0]);
    let mut controller = InitController::start_init(port).ok().unwrap();
    let snapshot = controller.status();
    assert!(snapshot.data_availability().is_some());
    assert!(!snapshot.input_buffer_full());
    assert!(snapshot.system_flag());
}

#[test]
fn keyboard_port_forwards_bytes_to_the_data_port() {
    let mut status = Vec::new();
    init_script(&mut status);
    respond(&mut status); // keyboard interface test
    accept(&mut status); // enable keyboard interface
    status.push(0); // wait before the forwarded byte
    let port = ScriptedPort::new(status, vec![0, 0]);
    let controller = InitController::start_init(port).ok().unwrap();
    let enabled = controller.enable_devices(EnableDevice::Keyboard).ok().unwrap();
    let mut keyboard_port = KeyboardPort::new(enabled);
    keyboard_port.send(0xF4);
    let port = keyboard_port.into_controller().into_port_io();
    assert_eq!(port.writes().last(), Some(&(DATA, 0xF4)));
}

#[test]
fn enable_auxiliary_device_gates_runtime_sends() {
    let mut status = Vec::new();
    init_script(&mut status);
    respond(&mut status); // auxiliary interface test
    accept(&mut status); // enable auxiliary interface
    accept(&mut status); // the write-to-auxiliary-device command
    let port = ScriptedPort::new(status, vec![0, 0]);
    let controller = InitController::start_init(port).ok().unwrap();
    let mut enabled = controller.enable_devices(EnableDevice::AuxiliaryDevice).ok().unwrap();
    assert_eq!(enabled.send_to_keyboard(0xF4), Err(DeviceSendError::NotEnabled));
    assert!(enabled.send_to_auxiliary_device(0xE9).is_ok());
    let port = enabled.into_port_io();
    let writes = port.writes();
    assert_eq!(
        &writes[5..],
        &[(CMD, 0xA9), (CMD, 0xA8), (CMD, 0xD4), (DATA, 0xE9)]
    );
}

#[test]
fn disabling_without_interrupts_skips_reinitialization() {
    let mut status = Vec::new();
    init_script(&mut status);
    respond(&mut status); // keyboard interface test
    accept(&mut status); // enable keyboard interface
    accept(&mut status); // disable auxiliary interface
    accept(&mut status); // disable keyboard interface
    let port = ScriptedPort::new(status, vec![0, 0]);
    let controller = InitController::start_init(port).ok().unwrap();
    let enabled = controller.enable_devices(EnableDevice::Keyboard).ok().unwrap();
    let controller = enabled.disable_devices().ok().unwrap();
    let port = controller.into_port_io();
    let writes = port.writes();
    assert_eq!(&writes[7..], &[(CMD, 0xA7), (CMD, 0xAD)]);
}

#[test]
fn a_silent_controller_times_out_instead_of_hanging() {
    let mut status = Vec::new();
    init_script(&mut status);
    // after initialization the controller never reports a reply byte
    let port = ScriptedPort::new(status, vec![0]);
    let mut controller = InitController::start_init(port).ok().unwrap();
    let mut ram = [0u8; CONTROLLER_RAM_SIZE];
    assert_eq!(controller.ram(&mut ram), Err(WaitTimeout));
}

#[test]
fn self_test_reports_a_silent_controller_as_timeout() {
    let mut status = Vec::new();
    init_script(&mut status);
    let port = ScriptedPort::new(status, vec![0]);
    let mut controller = InitController::start_init(port).ok().unwrap();
    assert_eq!(
        controller.self_test(),
        Err(ps2_driver::controller::driver::SelfTestError::Timeout)
    );
}

#[test]
fn a_busy_controller_fails_runtime_sends_with_timeout() {
    let mut status = Vec::new();
    init_script(&mut status);
    respond(&mut status); // keyboard interface test
    accept(&mut status); // enable keyboard interface
    status.append(&mut vec![2u8; 100000]); // the input buffer never drains
    let port = ScriptedPort::new(status, vec![0, 0]);
    let controller = InitController::start_init(port).ok().unwrap();
    let mut enabled = controller.enable_devices(EnableDevice::Keyboard).ok().unwrap();
    assert_eq!(enabled.send_to_keyboard(0xF4), Err(DeviceSendError::Timeout));
}

#[test]
fn a_timeout_after_passed_tests_reports_interface_timeout() {
    let mut status = Vec::new();
    init_script(&mut status);
    respond(&mut status); // keyboard interface test passes
    status.append(&mut vec![2u8; 100000]); // then the controller stays busy
    let port = ScriptedPort::new(status, vec![0, 0]);
    let controller = InitController::start_init(port).ok().unwrap();
    match controller.enable_devices(EnableDevice::Keyboard) {
        Err((_, error)) => assert_eq!(error, InterfaceError::Timeout),
        Ok(_) => panic!("the enable phase cannot succeed on a busy controller"),
    }
}
