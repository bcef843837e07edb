//! Pure bit arithmetic for the 16-bit memory-lock word.  Each lockable bank
//! owns a fixed pair of bit positions (data bit, permanent bit); an action
//! sets none, one or both of them, and the corresponding modify-mask bits sit
//! ten positions higher in the word.

use vstd::prelude::*;

use crate::types::LockAction;
use crate::types::LockableMemoryBank;
use crate::types::PasswordLockAction;

verus! {

/// Position of the bank's data bit in the lock word.
pub open spec fn data_bit(bank: LockableMemoryBank) -> u16 {
    match bank {
        LockableMemoryBank::User => 8,
        LockableMemoryBank::Tid => 6,
        LockableMemoryBank::Epc => 4,
        LockableMemoryBank::AccessPassword => 2,
        LockableMemoryBank::KillPassword => 0,
    }
}

/// Position of the bank's permanent bit in the lock word: one above the data
/// bit.
pub open spec fn perm_bit(bank: LockableMemoryBank) -> u16 {
    (data_bit(bank) + 1) as u16
}

/// Whether the bank's modify-mask bits (ten above the data and permanent
/// bits) still fall inside the 16-bit lock word.  This fails for the TID and
/// User banks, whose mask positions would be 16 and above.
pub open spec fn mask_fits(bank: LockableMemoryBank) -> bool {
    data_bit(bank) + 10 < 16 && perm_bit(bank) + 10 < 16
}

/// The lock word for an ordinary memory bank: the action selects which of the
/// bank's two bits are set, and the mask adds both modify-mask bits.
pub open spec fn spec_memory_bank_pattern(
    bank: LockableMemoryBank,
    action: LockAction,
    apply_mask: bool,
) -> u16 {
    let base: u16 = match action {
        LockAction::Writeable => 0u16,
        LockAction::PermanentlyWriteable => 1u16 << perm_bit(bank),
        LockAction::SecureWriteable => 1u16 << data_bit(bank),
        LockAction::NotWriteable => (1u16 << data_bit(bank)) | (1u16 << perm_bit(bank)),
    };
    if apply_mask {
        base | (1u16 << (data_bit(bank) + 10)) | (1u16 << (perm_bit(bank) + 10))
    } else {
        base
    }
}

/// The lock word for a password bank: the same bit scheme restricted to the
/// access and kill password positions.
pub open spec fn spec_password_pattern(
    bank: LockableMemoryBank,
    action: PasswordLockAction,
    apply_mask: bool,
) -> u16 {
    let base: u16 = match action {
        PasswordLockAction::ReadWriteable => 0u16,
        PasswordLockAction::PermanentlyReadWriteable => 1u16 << perm_bit(bank),
        PasswordLockAction::SecureReadWriteable => 1u16 << data_bit(bank),
        PasswordLockAction::NotReadWriteable => (1u16 << data_bit(bank)) | (
        1u16 << perm_bit(bank)),
    };
    if apply_mask {
        base | (1u16 << (data_bit(bank) + 10)) | (1u16 << (perm_bit(bank) + 10))
    } else {
        base
    }
}

/// The six ASCII bytes of a lock pattern as placed in the lock command: the
/// 16-bit word rendered as four uppercase hex digits, left-padded with two
/// zero digits.
pub open spec fn spec_lock_setting(pattern: u16) -> Seq<u8> {
    seq![
        48u8,
        48u8,
        crate::frames::hex_ascii(((pattern >> 12) & 0xF) as u8),
        crate::frames::hex_ascii(((pattern >> 8) & 0xF) as u8),
        crate::frames::hex_ascii(((pattern >> 4) & 0xF) as u8),
        crate::frames::hex_ascii((pattern & 0xF) as u8),
    ]
}

/// Render a lock pattern as the six ASCII bytes of the lock command.
pub fn lock_setting_bytes(pattern: u16) -> (r: [u8; 6])
    ensures
        r@ == spec_lock_setting(pattern),
{
    assert(((pattern >> 12) & 0xF) < 16 && ((pattern >> 8) & 0xF) < 16 && ((pattern >> 4) & 0xF)
        < 16 && (pattern & 0xF) < 16) by (bit_vector);
    let r: [u8; 6] = [
        48,
        48,
        crate::frames::hex_value(((pattern >> 12) & 0xF) as u8),
        crate::frames::hex_value(((pattern >> 8) & 0xF) as u8),
        crate::frames::hex_value(((pattern >> 4) & 0xF) as u8),
        crate::frames::hex_value((pattern & 0xF) as u8),
    ];
    proof {
        assert(r@ =~= spec_lock_setting(pattern));
    }
    r
}

/// Builder for creating complex lock patterns.
pub struct LockPatternBuilder {}

impl LockPatternBuilder {
    /// Create a lock pattern for a specific memory bank and action.  With the
    /// mask applied, the bank's modify-mask bits must fit the 16-bit word,
    /// which restricts the bank to EPC and the two password banks.
    pub fn memory_bank(bank: LockableMemoryBank, action: LockAction, apply_mask: bool) -> (r: u16)
        requires
            apply_mask ==> mask_fits(bank),
        ensures
            r == spec_memory_bank_pattern(bank, action, apply_mask),
    {
        let mut pattern: u16 = 0;

        let (data_bit_pos, perm_bit_pos): (u16, u16) = match bank {
            LockableMemoryBank::User => (8, 9),
            LockableMemoryBank::Tid => (6, 7),
            LockableMemoryBank::Epc => (4, 5),
            LockableMemoryBank::AccessPassword => (2, 3),
            LockableMemoryBank::KillPassword => (0, 1),
        };

        match action {
            LockAction::Writeable => {},
            LockAction::PermanentlyWriteable => {
                pattern = 1u16 << perm_bit_pos;
            },
            LockAction::SecureWriteable => {
                pattern = 1u16 << data_bit_pos;
            },
            LockAction::NotWriteable => {
                pattern = (1u16 << data_bit_pos) | (1u16 << perm_bit_pos);
            },
        }

        if apply_mask {
            pattern = pattern | (1u16 << (data_bit_pos + 10)) | (1u16 << (perm_bit_pos + 10));
        }

        pattern
    }

    /// Create a lock pattern for a password bank with the password-specific
    /// actions.  Only the access and kill password banks carry these actions.
    pub fn password(bank: LockableMemoryBank, action: PasswordLockAction, apply_mask: bool) -> (r:
        u16)
        requires
            bank == LockableMemoryBank::AccessPassword || bank == LockableMemoryBank::KillPassword,
        ensures
            r == spec_password_pattern(bank, action, apply_mask),
    {
        let mut pattern: u16 = 0;

        let (read_bit_pos, write_bit_pos): (u16, u16) = match bank {
            LockableMemoryBank::AccessPassword => (2, 3),
            _ => (0, 1),
        };

        match action {
            PasswordLockAction::ReadWriteable => {},
            PasswordLockAction::PermanentlyReadWriteable => {
                pattern = 1u16 << write_bit_pos;
            },
            PasswordLockAction::SecureReadWriteable => {
                pattern = 1u16 << read_bit_pos;
            },
            PasswordLockAction::NotReadWriteable => {
                pattern = (1u16 << read_bit_pos) | (1u16 << write_bit_pos);
            },
        }

        if apply_mask {
            pattern = pattern | (1u16 << (read_bit_pos + 10)) | (1u16 << (write_bit_pos + 10));
        }

        pattern
    }
}

} // verus!
