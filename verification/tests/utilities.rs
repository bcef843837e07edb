//! Hex utilities, input parsing, protocol types and the menu model.

use uhf_rfid::api::password_bytes;
use uhf_rfid::api::UhfRfidApi;
use uhf_rfid::errors::RfidError;
use uhf_rfid::input::parse_hex_data;
use uhf_rfid::input::parse_password;
use uhf_rfid::menu::LockActionOption;
use uhf_rfid::menu::MemoryBankOption;
use uhf_rfid::menu::Menu;
use uhf_rfid::menu::MenuOption;
use uhf_rfid::types::DeviceAction;
use uhf_rfid::types::LockAction;
use uhf_rfid::types::MemoryBank;
use uhf_rfid::types::UhfError;

#[test]
fn ascii_to_hex_decodes_both_cases() {
    assert_eq!(UhfRfidApi::ascii_to_hex("0A1b").unwrap(), vec![0x0A, 0x1B]);
    assert_eq!(
        UhfRfidApi::ascii_to_hex("deadBEEF").unwrap(),
        vec![0xDE, 0xAD, 0xBE, 0xEF]
    );
    assert_eq!(UhfRfidApi::ascii_to_hex("").unwrap(), Vec::<u8>::new());
}

#[test]
fn ascii_to_hex_rejects_bad_strings() {
    assert!(matches!(
        UhfRfidApi::ascii_to_hex("ABC"),
        Err(RfidError::Protocol(_))
    ));
    assert!(matches!(
        UhfRfidApi::ascii_to_hex("0G"),
        Err(RfidError::Protocol(_))
    ));
}

#[test]
fn hex_to_ascii_uses_uppercase() {
    assert_eq!(UhfRfidApi::hex_to_ascii(&[0xAB, 0x01]), "AB01");
    assert_eq!(UhfRfidApi::hex_to_ascii(&[]), "");
    assert_eq!(UhfRfidApi::hex_to_ascii(&[0x00, 0xFF]), "00FF");
}

#[test]
fn byte_to_ascii_hex_splits_nibbles() {
    assert_eq!(UhfRfidApi::byte_to_ascii_hex(0x5F), (b'5', b'F'));
    assert_eq!(UhfRfidApi::byte_to_ascii_hex(0x00), (b'0', b'0'));
    assert_eq!(UhfRfidApi::byte_to_ascii_hex(0xA9), (b'A', b'9'));
}

#[test]
fn parse_hex_data_checks_length_first() {
    assert_eq!(parse_hex_data("01020304").unwrap(), vec![1, 2, 3, 4]);
    assert_eq!(
        parse_hex_data("ABC").unwrap_err(),
        "Hex data must have an even number of characters"
    );
    assert!(parse_hex_data("0Z").is_err());
}

#[test]
fn parse_password_bounds_and_value() {
    assert_eq!(parse_password("12345678").unwrap(), 0x12345678);
    assert_eq!(parse_password("ff").unwrap(), 255);
    assert_eq!(parse_password("0").unwrap(), 0);
    assert_eq!(parse_password("FFFFFFFF").unwrap(), 0xFFFFFFFF);
    assert_eq!(
        parse_password("123456789").unwrap_err(),
        "Password must be at most 8 hex characters (32 bits)"
    );
    assert!(parse_password("").is_err());
    assert!(parse_password("12x4").is_err());
}

#[test]
fn memory_bank_codes_and_ascii() {
    assert_eq!(MemoryBank::Epc.to_ascii(), b'1');
    assert_eq!(MemoryBank::Tid.to_ascii(), b'2');
    assert_eq!(MemoryBank::User.to_ascii(), b'3');
    assert_eq!(MemoryBank::Reserved.to_ascii(), b'4');
    assert_eq!(MemoryBank::Epc.name(), "EPC");
}

#[test]
fn memory_bank_from_code() {
    assert_eq!(MemoryBank::from(1), MemoryBank::Epc);
    assert_eq!(MemoryBank::from(2), MemoryBank::Tid);
    assert_eq!(MemoryBank::from(3), MemoryBank::User);
    assert_eq!(MemoryBank::from(4), MemoryBank::Reserved);
    assert_eq!(MemoryBank::from(9), MemoryBank::Reserved);
}

#[test]
fn device_action_bitmask_combination() {
    assert_eq!(DeviceAction::combine(&[]), 0);
    assert_eq!(
        DeviceAction::combine(&[DeviceAction::Beep, DeviceAction::RedLed]),
        0x03
    );
    assert_eq!(
        DeviceAction::combine(&[
            DeviceAction::Beep,
            DeviceAction::RedLed,
            DeviceAction::GreenLed,
            DeviceAction::YellowLed
        ]),
        0x0F
    );
    // Repeating an action does not change the bitmask.
    assert_eq!(
        DeviceAction::combine(&[DeviceAction::Beep, DeviceAction::Beep]),
        0x01
    );
}

#[test]
fn password_expansion_is_big_endian_with_zero_tail() {
    assert_eq!(
        password_bytes(0x01020304),
        [1, 2, 3, 4, 0, 0, 0, 0]
    );
    assert_eq!(password_bytes(0), [0; 8]);
    assert_eq!(
        password_bytes(0xFFFFFFFF),
        [0xFF, 0xFF, 0xFF, 0xFF, 0, 0, 0, 0]
    );
}

#[test]
fn error_wrapping_from_protocol_errors() {
    assert!(matches!(
        RfidError::from(UhfError::Timeout),
        RfidError::UhfError(UhfError::Timeout)
    ));
}

#[test]
fn menu_option_indices() {
    assert_eq!(MenuOption::from_index(1, false), Some(MenuOption::Inventory));
    assert_eq!(MenuOption::from_index(7, false), Some(MenuOption::Quit));
    assert_eq!(MenuOption::from_index(8, false), None);
    assert_eq!(
        MenuOption::from_index(1, true),
        Some(MenuOption::ShowDeviceInfo)
    );
    assert_eq!(MenuOption::from_index(5, true), Some(MenuOption::BackToMain));
    assert_eq!(MenuOption::from_index(6, true), None);
    assert_eq!(MenuOption::from_index(0, false), None);
}

#[test]
fn menu_option_labels() {
    assert_eq!(
        MenuOption::Inventory.string_value(),
        "Inventory (scan for tags)"
    );
    assert_eq!(MenuOption::Quit.string_value(), "Quit");
}

#[test]
fn menu_bank_and_action_mappings() {
    assert_eq!(
        MemoryBankOption::from_index(2)
            .unwrap()
            .to_protocol_bank(),
        MemoryBank::Epc
    );
    assert_eq!(MemoryBankOption::from_index(5), None);
    assert_eq!(
        LockActionOption::from_index(4)
            .unwrap()
            .to_protocol_action(),
        LockAction::NotWriteable
    );
    assert_eq!(LockActionOption::from_index(0), None);
    assert!(!Menu::new().in_advanced_menu);
}
