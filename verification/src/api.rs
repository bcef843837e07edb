//! High-level UHF RFID operations built on top of the protocol engine:
//! parameter validation, lock-pattern rendering, password expansion and the
//! hex utilities of the public API.

use vstd::prelude::*;
use vstd::string::StringSliceAdditionalSpecFns;

use crate::errors::RfidError;
use crate::frames::action_response_valid;
use crate::frames::hex_ascii;
use crate::frames::lock_response_valid;
use crate::frames::password_response_valid;
use crate::frames::read_response_valid;
use crate::frames::spec_read_payload;
use crate::frames::write_response_valid;
use crate::hexstr::ascii_chars;
use crate::hexstr::ascii_to_string;
use crate::hexstr::hex_upper_bytes;
use crate::hexstr::lemma_hex_upper_ascii;
use crate::hexstr::spec_hex_upper;
use crate::interface::valid_tag;
use crate::interface::Interface;
use crate::lock_pattern::lock_setting_bytes;
use crate::lock_pattern::mask_fits;
use crate::lock_pattern::LockPatternBuilder;
use crate::types::DeviceAction;
use crate::types::InventoryResult;
use crate::types::LockAction;
use crate::types::LockableMemoryBank;
use crate::types::MemoryBank;
use crate::types::PasswordLockAction;
use crate::types::UsbIo;

verus! {

/// Whether a byte is an ASCII hex digit (either case).
pub open spec fn is_hex_digit(b: u8) -> bool {
    (48 <= b <= 57) || (65 <= b <= 70) || (97 <= b <= 102)
}

/// Value of an ASCII hex digit.
pub open spec fn hex_digit_val(b: u8) -> u8 {
    if 48 <= b <= 57 {
        (b - 48) as u8
    } else if 65 <= b <= 70 {
        (b - 55) as u8
    } else {
        (b - 87) as u8
    }
}

/// A byte string that decodes as hex: even length, all hex digits.
pub open spec fn valid_hex_str(bs: Seq<u8>) -> bool {
    bs.len() % 2 == 0 && forall|i: int| 0 <= i < bs.len() ==> is_hex_digit(#[trigger] bs[i])
}

/// The bytes a hex string decodes to, two digits per byte.
pub open spec fn decoded_hex(bs: Seq<u8>) -> Seq<u8> {
    Seq::new(
        bs.len() / 2,
        |i: int| (hex_digit_val(bs[2 * i]) * 16 + hex_digit_val(bs[2 * i + 1])) as u8,
    )
}

/// The number an ASCII hex string denotes, most significant digit first.
pub open spec fn hex_num(bs: Seq<u8>) -> nat
    decreases bs.len(),
{
    if bs.len() == 0 {
        0
    } else {
        (hex_num(bs.drop_last()) * 16 + hex_digit_val(bs.last())) as nat
    }
}

/// Sixteen to the power `n`.
pub open spec fn exp16(n: nat) -> nat
    decreases n,
{
    if n == 0 {
        1
    } else {
        16 * exp16((n - 1) as nat)
    }
}

/// A string of `n` hex digits denotes a number below sixteen to the `n`.
pub proof fn lemma_hex_num_bound(bs: Seq<u8>)
    requires
        forall|i: int| 0 <= i < bs.len() ==> is_hex_digit(#[trigger] bs[i]),
    ensures
        hex_num(bs) < exp16(bs.len()),
    decreases bs.len(),
{
    if bs.len() > 0 {
        lemma_hex_num_bound(bs.drop_last());
        assert(is_hex_digit(bs[bs.len() - 1]));
        assert(hex_digit_val(bs.last()) < 16);
    }
}

/// Sixteen to a power of at most eight stays within 2 to the 32.
pub proof fn lemma_exp16_small(n: nat)
    requires
        n <= 8,
    ensures
        exp16(n) <= 0x100000000,
    decreases n,
{
    assert(exp16(0) == 1);
    assert(exp16(1) == 16);
    assert(exp16(2) == 256);
    assert(exp16(3) == 0x1000);
    assert(exp16(4) == 0x10000);
    assert(exp16(5) == 0x100000);
    assert(exp16(6) == 0x1000000);
    assert(exp16(7) == 0x10000000);
    assert(exp16(8) == 0x100000000);
}

/// The eight password bytes sent to the device for a 32-bit password: the
/// password in big-endian order, followed by four zero bytes.
pub open spec fn spec_password_bytes(password: u32) -> Seq<u8> {
    seq![
        ((password >> 24) & 0xFF) as u8,
        ((password >> 16) & 0xFF) as u8,
        ((password >> 8) & 0xFF) as u8,
        (password & 0xFF) as u8,
        0u8,
        0u8,
        0u8,
        0u8,
    ]
}

/// Expand a 32-bit access password into the eight bytes of the password
/// command; the second four-byte word is always zero.
pub fn password_bytes(password: u32) -> (r: [u8; 8])
    ensures
        r@ == spec_password_bytes(password),
{
    let r: [u8; 8] = [
        ((password >> 24) & 0xFF) as u8,
        ((password >> 16) & 0xFF) as u8,
        ((password >> 8) & 0xFF) as u8,
        (password & 0xFF) as u8,
        0,
        0,
        0,
        0,
    ];
    proof {
        assert(r@ =~= spec_password_bytes(password));
    }
    r
}

/// What holds of every record an inventory scan returns: the identifier is a
/// valid tag digest and the read count equals the number of records.
pub open spec fn inventory_records_ok(tags: Seq<InventoryResult>) -> bool {
    forall|i: int|
        0 <= i < tags.len() ==> valid_tag(#[trigger] tags[i].epc@) && tags[i].read_count
            == tags.len()
}

/// High-level UHF RFID operations built on top of the protocol layer.
pub struct UhfRfidApi {}

impl UhfRfidApi {
    /// A protocol handle for a connected device.
    fn get_interface(device: &impl UsbIo) -> (r: Result<Interface, RfidError>)
        ensures
            device.connected() ==> (r matches Ok(i) && !i.debug_mode),
            !device.connected() ==> (r matches Err(e) && e is NotConnected),
    {
        if device.is_connected() {
            Ok(Interface { debug_mode: false })
        } else {
            Err(RfidError::NotConnected)
        }
    }

    /// Control device indicators (LED and beep); the time parameter is in
    /// deciseconds (10 ms units).  An empty action list combines to the zero
    /// bitmask, which the protocol rejects.
    pub fn device_action(device: &impl UsbIo, actions: &[DeviceAction], time: u8) -> (r: Result<
        (),
        RfidError,
    >)
        ensures
            !device.connected() ==> (r matches Err(e) && e is NotConnected),
            device.connected() && DeviceAction::spec_combine(actions@) == 0 ==> (r matches Err(e)
                && e matches RfidError::UhfError(u) && u is InvalidParameter),
            r is Ok ==> device.connected() && DeviceAction::spec_combine(actions@) >= 1 && exists|
                resp: Seq<u8>,
            | #[trigger] action_response_valid(resp),
    {
        let interface = match Self::get_interface(device) {
            Ok(i) => i,
            Err(e) => {
                return Err(e);
            },
        };
        let action_byte = DeviceAction::combine(actions);
        if !device.is_connected() {
            return Err(RfidError::NotConnected);
        }
        proof {
            DeviceAction::lemma_combine_bounded(actions@);
        }
        match interface.action(device, action_byte, time) {
            Ok(()) => Ok(()),
            Err(e) => Err(RfidError::UhfError(e)),
        }
    }

    /// Read data from a memory bank: `word_count` words of four bytes each,
    /// starting at `address`.  Addresses and word counts above 255 are out of
    /// the protocol's range; word counts above 15 cannot be encoded.
    pub fn read(device: &impl UsbIo, bank: MemoryBank, address: u32, word_count: u32) -> (r: Result<
        Vec<u8>,
        RfidError,
    >)
        ensures
            !device.connected() ==> (r matches Err(e) && e is NotConnected),
            device.connected() && address > 255 ==> (r matches Err(e) && e is Protocol),
            device.connected() && address <= 255 && word_count > 255 ==> (r matches Err(e)
                && e is Protocol),
            device.connected() && address <= 255 && 15 < word_count <= 255 ==> (r matches Err(e)
                && e matches RfidError::UhfError(u) && u is InvalidParameter),
            r matches Ok(data) ==> device.connected() && word_count <= 15 && exists|resp: Seq<u8>|
                #[trigger] read_response_valid(resp) && data@ == spec_read_payload(
                    resp,
                    word_count as u8,
                ),
    {
        let interface = match Self::get_interface(device) {
            Ok(i) => i,
            Err(e) => {
                return Err(e);
            },
        };
        if address > 255 {
            return Err(RfidError::Protocol("Address out of range".to_owned()));
        }
        let address8: u8 = address as u8;
        if word_count > 255 {
            return Err(RfidError::Protocol("Word count out of range".to_owned()));
        }
        let word_count8: u8 = word_count as u8;
        if !device.is_connected() {
            return Err(RfidError::NotConnected);
        }
        match interface.read(device, bank, address8, word_count8) {
            Ok(data) => Ok(data),
            Err(e) => Err(RfidError::UhfError(e)),
        }
    }

    /// Write data to a memory bank.  The data must be a non-empty sequence of
    /// four-byte words; at most 15 words fit one command.
    pub fn write(device: &impl UsbIo, bank: MemoryBank, address: u32, data: &[u8]) -> (r: Result<
        (),
        RfidError,
    >)
        ensures
            data@.len() % 4 != 0 ==> (r matches Err(e) && e is Protocol),
            data@.len() % 4 == 0 && !device.connected() ==> (r matches Err(e)
                && e is NotConnected),
            data@.len() % 4 == 0 && device.connected() && address > 255 ==> (r matches Err(e)
                && e is Protocol),
            r is Ok ==> device.connected() && crate::frames::write_params_ok(data@) && exists|
                resp: Seq<u8>,
            | #[trigger] write_response_valid(resp),
    {
        if data.len() % 4 != 0 {
            return Err(RfidError::Protocol("Data length must be a multiple of 4".to_owned()));
        }
        let interface = match Self::get_interface(device) {
            Ok(i) => i,
            Err(e) => {
                return Err(e);
            },
        };
        if !device.is_connected() {
            return Err(RfidError::NotConnected);
        }
        if address > 255 {
            return Err(RfidError::Protocol("Address out of range".to_owned()));
        }
        let address8: u8 = address as u8;
        match interface.write(device, bank, address8, data) {
            Ok(()) => Ok(()),
            Err(e) => Err(RfidError::UhfError(e)),
        }
    }

    /// Lock a memory bank with the specified action.  The modify mask is
    /// always applied, so the bank's mask bits must fit the 16-bit lock word;
    /// the TID and User banks cannot be locked through this call.
    pub fn lock_memory_bank(
        device: &impl UsbIo,
        bank: LockableMemoryBank,
        action: LockAction,
    ) -> (r: Result<(), RfidError>)
        requires
            mask_fits(bank),
        ensures
            !device.connected() ==> (r matches Err(e) && e is NotConnected),
            r is Ok ==> device.connected() && exists|resp: Seq<u8>|
                #[trigger] lock_response_valid(resp),
    {
        Self::lock_memory_raw(device, LockPatternBuilder::memory_bank(bank, action, true))
    }

    /// Lock memory using a raw 16-bit lock pattern, rendered as six ASCII
    /// bytes in the lock command.
    pub fn lock_memory_raw(device: &impl UsbIo, pattern: u16) -> (r: Result<(), RfidError>)
        ensures
            !device.connected() ==> (r matches Err(e) && e is NotConnected),
            r is Ok ==> device.connected() && exists|resp: Seq<u8>|
                #[trigger] lock_response_valid(resp),
    {
        let interface = match Self::get_interface(device) {
            Ok(i) => i,
            Err(e) => {
                return Err(e);
            },
        };
        let pattern_bytes = lock_setting_bytes(pattern);
        if !device.is_connected() {
            return Err(RfidError::NotConnected);
        }
        match interface.lock_memory(device, &pattern_bytes) {
            Ok(()) => Ok(()),
            Err(e) => Err(RfidError::UhfError(e)),
        }
    }

    /// Perform an inventory operation to find tags.  Every record carries the
    /// tag's truncated hex identifier and, as its read count, the number of
    /// tags this scan recorded.
    pub fn inventory(device: &impl UsbIo) -> (r: Result<Vec<InventoryResult>, RfidError>)
        ensures
            !device.connected() ==> (r matches Err(e) && e is NotConnected),
            r matches Ok(tags) ==> device.connected() && tags@.len() <= 10
                && inventory_records_ok(tags@),
    {
        let interface = match Self::get_interface(device) {
            Ok(i) => i,
            Err(e) => {
                return Err(e);
            },
        };
        if !device.is_connected() {
            return Err(RfidError::NotConnected);
        }
        let epc_list = match interface.get_epc_list_raw(device) {
            Ok(l) => l,
            Err(e) => {
                return Err(RfidError::UhfError(e));
            },
        };
        let read_count: u8 = epc_list.len() as u8;
        let mut tags: Vec<InventoryResult> = Vec::new();
        let mut i: usize = 0;
        while i < epc_list.len()
            invariant
                device.connected(),
                i <= epc_list@.len(),
                epc_list@.len() <= 10,
                read_count == epc_list@.len(),
                tags@.len() == i,
                forall|q: int| 0 <= q < epc_list@.len() ==> valid_tag(#[trigger] epc_list@[q]@),
                forall|q: int|
                    0 <= q < i ==> valid_tag(#[trigger] tags@[q].epc@) && tags@[q].read_count
                        == read_count,
            decreases epc_list@.len() - i,
        {
            let epc = epc_list[i].clone();
            proof {
                assert(epc == epc_list@[i as int]);
                assert(valid_tag(epc_list@[i as int]@));
            }
            tags.push(InventoryResult { epc, read_count });
            i = i + 1;
        }
        proof {
            assert forall|q: int| 0 <= q < tags@.len() implies valid_tag(
                #[trigger] tags@[q].epc@,
            ) && tags@[q].read_count == tags@.len() by {
                assert(valid_tag(tags@[q].epc@));
                assert(tags@[q].read_count == read_count);
            }
            assert(inventory_records_ok(tags@));
        }
        Ok(tags)
    }

    /// Set the access password for secured operations: the 32-bit password in
    /// big-endian order, padded with a zero second word.
    pub fn set_access_password(device: &impl UsbIo, password: u32) -> (r: Result<(), RfidError>)
        ensures
            !device.connected() ==> (r matches Err(e) && e is NotConnected),
            r is Ok ==> device.connected() && exists|resp: Seq<u8>|
                #[trigger] password_response_valid(resp),
    {
        let interface = match Self::get_interface(device) {
            Ok(i) => i,
            Err(e) => {
                return Err(e);
            },
        };
        let full_password = password_bytes(password);
        if !device.is_connected() {
            return Err(RfidError::NotConnected);
        }
        match interface.set_access_password(device, &full_password) {
            Ok(()) => Ok(()),
            Err(e) => Err(RfidError::UhfError(e)),
        }
    }

    /// Lock a password bank with the specified action; only the access and
    /// kill password banks can be locked this way.
    pub fn lock_password(
        device: &impl UsbIo,
        bank: LockableMemoryBank,
        action: PasswordLockAction,
    ) -> (r: Result<(), RfidError>)
        ensures
            bank != LockableMemoryBank::AccessPassword && bank != LockableMemoryBank::KillPassword
                ==> (r matches Err(e) && e is Protocol),
            (bank == LockableMemoryBank::AccessPassword || bank
                == LockableMemoryBank::KillPassword) && !device.connected() ==> (r matches Err(e)
                && e is NotConnected),
            r is Ok ==> device.connected() && exists|resp: Seq<u8>|
                #[trigger] lock_response_valid(resp),
    {
        if bank != LockableMemoryBank::AccessPassword && bank != LockableMemoryBank::KillPassword {
            return Err(
                RfidError::Protocol(
                    "Only Access and Kill passwords can be locked with this method".to_owned(),
                ),
            );
        }
        Self::lock_memory_raw(device, LockPatternBuilder::password(bank, action, true))
    }

    /// Utility function to convert an ASCII hex string to bytes.  The string
    /// must have even length and hold only hex digits of either case.
    pub fn ascii_to_hex(hex_string: &str) -> (r: Result<Vec<u8>, RfidError>)
        ensures
            valid_hex_str(hex_string.spec_bytes()) ==> (r matches Ok(v) && v@ == decoded_hex(
                hex_string.spec_bytes(),
            )),
            !valid_hex_str(hex_string.spec_bytes()) ==> (r matches Err(e) && e is Protocol),
    {
        let bytes = hex_string.as_bytes();
        if bytes.len() % 2 != 0 {
            return Err(RfidError::Protocol("Invalid hex string".to_owned()));
        }
        let pairs = bytes.len() / 2;
        let mut result: Vec<u8> = Vec::new();
        let mut i: usize = 0;
        while i < pairs
            invariant
                i <= pairs,
                bytes@ == hex_string.spec_bytes(),
                2 * pairs == bytes@.len(),
                bytes@.len() <= usize::MAX,
                result@.len() == i,
                forall|q: int| 0 <= q < 2 * i ==> is_hex_digit(#[trigger] bytes@[q]),
                forall|q: int|
                    0 <= q < i ==> #[trigger] result@[q] == (hex_digit_val(bytes@[2 * q]) * 16
                        + hex_digit_val(bytes@[2 * q + 1])) as u8,
            decreases pairs - i,
        {
            let hi = match Self::hex_digit_value(bytes[2 * i]) {
                Some(v) => v,
                None => {
                    return Err(RfidError::Protocol("Invalid hex string".to_owned()));
                },
            };
            let lo = match Self::hex_digit_value(bytes[2 * i + 1]) {
                Some(v) => v,
                None => {
                    return Err(RfidError::Protocol("Invalid hex string".to_owned()));
                },
            };
            result.push(hi * 16 + lo);
            i = i + 1;
        }
        proof {
            assert(result@ =~= decoded_hex(bytes@));
        }
        Ok(result)
    }

    /// Value of one ASCII hex digit, if it is one.
    pub(crate) fn hex_digit_value(b: u8) -> (r: Option<u8>)
        ensures
            is_hex_digit(b) ==> (r matches Some(v) && v == hex_digit_val(b)),
            !is_hex_digit(b) ==> r is None,
    {
        if 48 <= b && b <= 57 {
            Some(b - 48)
        } else if 65 <= b && b <= 70 {
            Some(b - 55)
        } else if 97 <= b && b <= 102 {
            Some(b - 87)
        } else {
            None
        }
    }

    /// Utility function to convert bytes to an uppercase ASCII hex string.
    pub fn hex_to_ascii(bytes: &[u8]) -> (r: String)
        ensures
            r@ == ascii_chars(spec_hex_upper(bytes@)),
    {
        let rendered = hex_upper_bytes(bytes);
        proof {
            lemma_hex_upper_ascii(bytes@);
        }
        ascii_to_string(&rendered)
    }

    /// Utility function to convert a byte to its two uppercase ASCII hex
    /// digits, high nibble first.
    pub fn byte_to_ascii_hex(byte: u8) -> (r: (u8, u8))
        ensures
            r.0 == hex_ascii(byte >> 4),
            r.1 == hex_ascii(byte & 0x0F),
    {
        assert((byte >> 4) < 16 && (byte & 0x0F) < 16) by (bit_vector);
        let high = byte >> 4;
        let low = byte & 0x0F;
        (crate::frames::hex_value(high), crate::frames::hex_value(low))
    }
}

} // verus!
