//! Frame encoding and response validation, checked byte for byte.

use uhf_rfid::frames::decode_action;
use uhf_rfid::frames::decode_lock;
use uhf_rfid::frames::decode_read;
use uhf_rfid::frames::decode_set_password;
use uhf_rfid::frames::decode_write;
use uhf_rfid::frames::encode_action;
use uhf_rfid::frames::encode_inventory_poll;
use uhf_rfid::frames::encode_inventory_start;
use uhf_rfid::frames::encode_lock;
use uhf_rfid::frames::encode_read;
use uhf_rfid::frames::encode_set_password;
use uhf_rfid::frames::encode_write;
use uhf_rfid::frames::hex_value;
use uhf_rfid::types::MemoryBank;
use uhf_rfid::types::UhfError;

fn all_banks() -> Vec<MemoryBank> {
    vec![
        MemoryBank::Epc,
        MemoryBank::Tid,
        MemoryBank::User,
        MemoryBank::Reserved,
    ]
}

#[test]
fn read_frame_length_by_address() {
    for bank in all_banks() {
        for address in 0u8..=255 {
            let frame = encode_read(bank, address, 4).unwrap();
            if address < 16 {
                assert_eq!(frame.len(), 9, "single hex digit for address {address}");
                assert_eq!(frame[0], 8);
            } else {
                assert_eq!(frame.len(), 10, "two hex digits for address {address}");
                assert_eq!(frame[0], 9);
            }
        }
    }
}

#[test]
fn read_frame_word_count_byte() {
    for w in 0u8..=9 {
        let frame = encode_read(MemoryBank::Epc, 0, w).unwrap();
        assert_eq!(*frame.last().unwrap(), b'0' + w);
    }
    for w in 10u8..=15 {
        let frame = encode_read(MemoryBank::Epc, 0, w).unwrap();
        assert_eq!(*frame.last().unwrap(), w + 55);
    }
}

#[test]
fn read_frame_exact_bytes() {
    let frame = encode_read(MemoryBank::Epc, 0, 4).unwrap();
    assert_eq!(frame, vec![8, 2, b'A', b'R', b'1', b',', b'0', b',', b'4']);
    let frame = encode_read(MemoryBank::Tid, 0x2A, 12).unwrap();
    assert_eq!(
        frame,
        vec![9, 2, b'A', b'R', b'2', b',', b'2', b'A', b',', b'C']
    );
}

#[test]
fn read_rejects_large_word_count() {
    for w in 16u8..=255 {
        match encode_read(MemoryBank::Epc, 0, w) {
            Err(UhfError::InvalidParameter(_)) => {}
            other => panic!("word count {w} must be rejected, got {other:?}"),
        }
    }
}

#[test]
fn write_frame_exact_bytes() {
    let frame = encode_write(MemoryBank::User, 3, &[0xDE, 0xAD, 0xBE, 0xEF]).unwrap();
    assert_eq!(
        frame,
        vec![13, 2, b'A', b'W', b'3', b',', b'3', b',', b'1', b',', 0xDE, 0xAD, 0xBE, 0xEF]
    );
    let frame = encode_write(MemoryBank::Epc, 0x10, &[1, 2, 3, 4, 5, 6, 7, 8]).unwrap();
    assert_eq!(
        frame,
        vec![18, 2, b'A', b'W', b'1', b',', b'1', b'0', b',', b'2', b',', 1, 2, 3, 4, 5, 6, 7, 8]
    );
}

#[test]
fn write_rejects_bad_data() {
    assert!(matches!(
        encode_write(MemoryBank::Epc, 0, &[]),
        Err(UhfError::InvalidParameter(_))
    ));
    assert!(matches!(
        encode_write(MemoryBank::Epc, 0, &[1, 2, 3]),
        Err(UhfError::InvalidParameter(_))
    ));
    let too_long = vec![0u8; 64];
    assert!(matches!(
        encode_write(MemoryBank::Epc, 0, &too_long),
        Err(UhfError::InvalidParameter(_))
    ));
    let largest = vec![7u8; 60];
    assert!(encode_write(MemoryBank::Epc, 0, &largest).is_ok());
}

#[test]
fn fixed_frames_exact_bytes() {
    assert_eq!(encode_action(0x05, 50), vec![4, 2, 145, 0x05, 50]);
    let pw = [0x12, 0x34, 0x56, 0x78, 0, 0, 0, 0];
    assert_eq!(
        encode_set_password(&pw),
        vec![11, 2, b'A', b'P', 0x12, 0x34, 0x56, 0x78, 0, 0, 0, 0]
    );
    let setting = [b'0', b'0', b'3', b'0', b'3', b'0'];
    assert_eq!(
        encode_lock(&setting),
        vec![10, 2, b'A', b'L', b'0', b'0', b'3', b'0', b'3', b'0']
    );
    assert_eq!(encode_inventory_start(), vec![3, 2, 0x55, 0x80]);
    assert_eq!(encode_inventory_poll(), vec![3, 2, 0x55, 0x91]);
}

#[test]
fn hex_value_digits() {
    assert_eq!(hex_value(0), b'0');
    assert_eq!(hex_value(9), b'9');
    assert_eq!(hex_value(10), b'A');
    assert_eq!(hex_value(15), b'F');
}

#[test]
fn decode_read_payload_truncation() {
    // 4 words requested but only 6 payload bytes present: the whole rest.
    let resp = vec![0, 0, 0, 0, b'R', 1, 2, 3, 4, 5, 6];
    assert_eq!(decode_read(&resp, 4).unwrap(), vec![1, 2, 3, 4, 5, 6]);
    // 1 word requested: payload truncated to four bytes.
    assert_eq!(decode_read(&resp, 1).unwrap(), vec![1, 2, 3, 4]);
}

#[test]
fn decode_read_rejects_bad_responses() {
    let short = vec![0, 0, 0, 0, b'R'];
    assert!(matches!(
        decode_read(&short, 1),
        Err(UhfError::InvalidResponse)
    ));
    let wrong_marker = vec![0, 0, 0, 0, b'W', 1, 2, 3, 4];
    assert!(matches!(
        decode_read(&wrong_marker, 1),
        Err(UhfError::InvalidResponse)
    ));
}

#[test]
fn decode_write_checks_first_byte() {
    assert!(decode_write(&vec![8]).is_ok());
    assert!(decode_write(&vec![8, 99, 99]).is_ok());
    assert!(matches!(
        decode_write(&vec![]),
        Err(UhfError::InvalidResponse)
    ));
    assert!(matches!(
        decode_write(&vec![7]),
        Err(UhfError::InvalidResponse)
    ));
}

#[test]
fn decode_action_checks_header() {
    assert!(decode_action(&vec![3, 2, 145, 0]).is_ok());
    assert!(decode_action(&vec![3, 2, 145, 0, 77]).is_ok());
    assert!(matches!(
        decode_action(&vec![3, 2, 145]),
        Err(UhfError::InvalidResponse)
    ));
    assert!(matches!(
        decode_action(&vec![3, 2, 145, 1]),
        Err(UhfError::InvalidResponse)
    ));
}

#[test]
fn decode_password_exact_header() {
    assert!(decode_set_password(&vec![4, 2, 65, 0, 80]).is_ok());
    assert!(decode_set_password(&vec![4, 2, 65, 0, 80, 9, 9]).is_ok());
}

#[test]
fn decode_password_rejects_any_differing_byte() {
    for i in 0..5 {
        let mut resp: Vec<u8> = vec![4, 2, 65, 0, 80];
        resp[i] = resp[i].wrapping_add(1);
        assert!(
            matches!(decode_set_password(&resp), Err(UhfError::InvalidResponse)),
            "byte {i} changed must be rejected"
        );
    }
    assert!(matches!(
        decode_set_password(&vec![4, 2, 65, 0]),
        Err(UhfError::InvalidResponse)
    ));
}

#[test]
fn decode_lock_checks_markers() {
    assert!(decode_lock(&vec![8, 0, 0, 0, 76, 0, 79, 75]).is_ok());
    assert!(matches!(
        decode_lock(&vec![8, 0, 0, 0, 76, 0, 79]),
        Err(UhfError::InvalidResponse)
    ));
    assert!(matches!(
        decode_lock(&vec![7, 0, 0, 0, 76, 0, 79, 75]),
        Err(UhfError::InvalidResponse)
    ));
    assert!(matches!(
        decode_lock(&vec![8, 0, 0, 0, 77, 0, 79, 75]),
        Err(UhfError::InvalidResponse)
    ));
}
