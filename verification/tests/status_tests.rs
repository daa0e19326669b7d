//! Decoding of the status register, the controller command byte, and the
//! interface test result byte.

use ps2_driver::controller::driver::status::{DataOwner, PasswordState, StatusInfo};
use ps2_driver::controller::driver::DeviceInterfaceError;
use ps2_driver::controller::raw::{ControllerCommandByte, StatusRegister};

fn status_of(bits: u8) -> StatusInfo {
    StatusInfo::from_register(StatusRegister::from_bits_truncate(bits))
}

#[test]
fn data_availability_none_when_output_empty() {
    assert!(status_of(0x00).data_availability().is_none());
    assert!(status_of(0x0E).data_availability().is_none());
}

#[test]
fn data_availability_keyboard_when_output_full() {
    assert!(matches!(
        status_of(0x01).data_availability(),
        Some(DataOwner::KeyboardOrCommandController)
    ));
    assert!(matches!(
        status_of(0x1D).data_availability(),
        Some(DataOwner::KeyboardOrCommandController)
    ));
}

#[test]
fn data_availability_auxiliary_takes_precedence() {
    assert!(matches!(status_of(0x21).data_availability(), Some(DataOwner::AuxiliaryDevice)));
    assert!(matches!(status_of(0xFF).data_availability(), Some(DataOwner::AuxiliaryDevice)));
}

#[test]
fn data_availability_decodes_defensively_without_output_bit() {
    // The hardware never sets the auxiliary bit alone; the decoder reads
    // such a byte as no data rather than inventing an owner.
    assert!(status_of(0x20).data_availability().is_none());
}

#[test]
fn keyboard_data_parity_flags_even_parity() {
    assert!(status_of(0x80).keyboard_data_parity().is_err());
    assert!(status_of(0x7F).keyboard_data_parity().is_ok());
}

#[test]
fn general_timeout_error_reads_bit_six() {
    assert!(status_of(0x40).general_timeout_error());
    assert!(!status_of(0xBF).general_timeout_error());
}

#[test]
fn password_state_reads_inhibit_switch() {
    assert!(matches!(status_of(0x10).password_state(), PasswordState::Active));
    assert!(matches!(status_of(0xEF).password_state(), PasswordState::Inactive));
}

#[test]
fn system_flag_and_input_buffer_bits() {
    assert!(status_of(0x04).system_flag());
    assert!(!status_of(0xFB).system_flag());
    assert!(status_of(0x02).input_buffer_full());
    assert!(!status_of(0xFD).input_buffer_full());
}

#[test]
fn status_register_round_trip() {
    let register = StatusRegister::from_bits_truncate(0xA5);
    assert_eq!(register.bits(), 0xA5);
    assert!(register.contains(0xA5));
    assert!(register.contains(0x21));
    assert!(!register.contains(0x02));
    assert_eq!(status_of(0xA5).raw().bits(), 0xA5);
}

#[test]
fn controller_command_byte_drops_undefined_bits() {
    let byte = ControllerCommandByte::from_bits_truncate(0xFF);
    assert_eq!(byte.bits(), 0x77);
}

#[test]
fn controller_command_byte_set_and_contains() {
    let mut byte = ControllerCommandByte::from_bits_truncate(0);
    byte.set(0x01, true);
    byte.set(0x40, true);
    assert_eq!(byte.bits(), 0x41);
    assert!(byte.contains(0x01));
    assert!(byte.contains(0x41));
    byte.set(0x01, false);
    assert_eq!(byte.bits(), 0x40);
    assert!(!byte.contains(0x01));
}

#[test]
fn from_test_result_maps_the_closed_error_set() {
    assert!(DeviceInterfaceError::from_test_result(0).is_ok());
    assert_eq!(
        DeviceInterfaceError::from_test_result(1),
        Err(DeviceInterfaceError::ClockLineLow)
    );
    assert_eq!(
        DeviceInterfaceError::from_test_result(2),
        Err(DeviceInterfaceError::ClockLineHigh)
    );
    assert_eq!(
        DeviceInterfaceError::from_test_result(3),
        Err(DeviceInterfaceError::DataLineLow)
    );
    assert_eq!(
        DeviceInterfaceError::from_test_result(4),
        Err(DeviceInterfaceError::DataLineHigh)
    );
    assert_eq!(
        DeviceInterfaceError::from_test_result(0xA3),
        Err(DeviceInterfaceError::UnknownValue(0xA3))
    );
}
