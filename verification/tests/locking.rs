//! Lock pattern arithmetic and its ASCII rendering.

use uhf_rfid::lock_pattern::lock_setting_bytes;
use uhf_rfid::lock_pattern::LockPatternBuilder;
use uhf_rfid::types::LockAction;
use uhf_rfid::types::LockableMemoryBank;
use uhf_rfid::types::PasswordLockAction;

#[test]
fn epc_writeable_without_mask_is_zero() {
    assert_eq!(
        LockPatternBuilder::memory_bank(LockableMemoryBank::Epc, LockAction::Writeable, false),
        0x0000
    );
}

#[test]
fn epc_not_writeable_with_mask_sets_four_bits() {
    // Data and permanent bits 4 and 5, plus mask bits 14 and 15.
    let pattern =
        LockPatternBuilder::memory_bank(LockableMemoryBank::Epc, LockAction::NotWriteable, true);
    assert_eq!(pattern, (1 << 4) | (1 << 5) | (1 << 14) | (1 << 15));
    assert_eq!(pattern, 0xC030);
}

#[test]
fn bank_bit_positions_without_mask() {
    assert_eq!(
        LockPatternBuilder::memory_bank(LockableMemoryBank::User, LockAction::NotWriteable, false),
        0x0300
    );
    assert_eq!(
        LockPatternBuilder::memory_bank(LockableMemoryBank::Tid, LockAction::NotWriteable, false),
        0x00C0
    );
    assert_eq!(
        LockPatternBuilder::memory_bank(
            LockableMemoryBank::AccessPassword,
            LockAction::NotWriteable,
            false
        ),
        0x000C
    );
    assert_eq!(
        LockPatternBuilder::memory_bank(
            LockableMemoryBank::KillPassword,
            LockAction::NotWriteable,
            false
        ),
        0x0003
    );
}

#[test]
fn action_selects_bits() {
    assert_eq!(
        LockPatternBuilder::memory_bank(
            LockableMemoryBank::Epc,
            LockAction::PermanentlyWriteable,
            false
        ),
        0x0020
    );
    assert_eq!(
        LockPatternBuilder::memory_bank(
            LockableMemoryBank::Epc,
            LockAction::SecureWriteable,
            false
        ),
        0x0010
    );
}

#[test]
fn password_patterns_with_mask() {
    assert_eq!(
        LockPatternBuilder::password(
            LockableMemoryBank::AccessPassword,
            PasswordLockAction::NotReadWriteable,
            true
        ),
        0x300C
    );
    assert_eq!(
        LockPatternBuilder::password(
            LockableMemoryBank::KillPassword,
            PasswordLockAction::NotReadWriteable,
            true
        ),
        0x0C03
    );
    assert_eq!(
        LockPatternBuilder::password(
            LockableMemoryBank::AccessPassword,
            PasswordLockAction::ReadWriteable,
            false
        ),
        0x0000
    );
}

#[test]
fn lock_setting_renders_six_ascii_bytes() {
    assert_eq!(lock_setting_bytes(0x3030), *b"003030");
    assert_eq!(lock_setting_bytes(0x0000), *b"000000");
    assert_eq!(lock_setting_bytes(0xBEEF), *b"00BEEF");
    assert_eq!(lock_setting_bytes(0x000C), *b"00000C");
}
