//! Byte-exact layout of every command frame and validation of every response
//! frame.  The reader's firmware mixes binary markers with ASCII-hex digits;
//! the layouts here reproduce that hybrid encoding byte for byte.

use vstd::prelude::*;

use crate::types::MemoryBank;
use crate::types::UhfError;

verus! {

/// A value below 10 becomes the ASCII digit `'0' + value`; a value of 10 or
/// more becomes `value + 55`, which yields `'A'` to `'F'` for 10 to 15.
pub open spec fn hex_ascii(v: u8) -> u8 {
    if v >= 10 {
        (v + 55) as u8
    } else {
        (v + 48) as u8
    }
}

/// Convert a nibble value to its ASCII hex character.
pub fn hex_value(value: u8) -> (r: u8)
    requires
        value < 16,
    ensures
        r == hex_ascii(value),
{
    if value >= 10 {
        value + 55
    } else {
        value + 48
    }
}

/// The read command: declared length, binary marker 2, opcode letters `AR`,
/// the bank digit, then comma-separated address (one hex digit below 16, two
/// from 16 up) and word count.
pub open spec fn spec_read_frame(bank: MemoryBank, address: u8, words: u8) -> Seq<u8> {
    if address < 16 {
        seq![
            8u8,
            2u8,
            65u8,
            82u8,
            bank.spec_to_ascii(),
            44u8,
            hex_ascii(address),
            44u8,
            hex_ascii(words),
        ]
    } else {
        seq![
            9u8,
            2u8,
            65u8,
            82u8,
            bank.spec_to_ascii(),
            44u8,
            hex_ascii(address >> 4),
            hex_ascii(address & 0x0F),
            44u8,
            hex_ascii(words),
        ]
    }
}

/// Build the read command frame.  Word counts above 15 cannot be encoded as a
/// single hex digit and are rejected.
pub fn encode_read(bank: MemoryBank, address: u8, words: u8) -> (r: Result<Vec<u8>, UhfError>)
    ensures
        words <= 15 ==> (r matches Ok(v) && v@ == spec_read_frame(bank, address, words)),
        words > 15 ==> (r matches Err(e) && e is InvalidParameter),
{
    if words > 15 {
        return Err(UhfError::InvalidParameter("Word count too large to encode".to_owned()));
    }
    assert(address >= 16 ==> (address >> 4) < 16 && (address & 0x0F) < 16) by (bit_vector);
    let mut v: Vec<u8> = Vec::new();
    if address < 16 {
        v.push(8);
        v.push(2);
        v.push(65);
        v.push(82);
        v.push(bank.to_ascii());
        v.push(44);
        v.push(hex_value(address));
        v.push(44);
        v.push(hex_value(words));
    } else {
        v.push(9);
        v.push(2);
        v.push(65);
        v.push(82);
        v.push(bank.to_ascii());
        v.push(44);
        v.push(hex_value(address >> 4));
        v.push(hex_value(address & 0x0F));
        v.push(44);
        v.push(hex_value(words));
    }
    proof {
        assert(v@ =~= spec_read_frame(bank, address, words));
    }
    Ok(v)
}

/// The write parameters the protocol can represent: a non-empty amount of
/// data, a whole number of 4-byte words, and at most 15 words.
pub open spec fn write_params_ok(data: Seq<u8>) -> bool {
    data.len() > 0 && data.len() % 4 == 0 && data.len() <= 60
}

/// The write command: like the read command with opcode `W`, followed by a
/// comma and the raw data bytes; the declared length is the frame length
/// minus one.
pub open spec fn spec_write_frame(bank: MemoryBank, address: u8, data: Seq<u8>) -> Seq<u8> {
    if address < 16 {
        seq![
            (9 + data.len()) as u8,
            2u8,
            65u8,
            87u8,
            bank.spec_to_ascii(),
            44u8,
            hex_ascii(address),
            44u8,
            hex_ascii((data.len() / 4) as u8),
            44u8,
        ] + data
    } else {
        seq![
            (10 + data.len()) as u8,
            2u8,
            65u8,
            87u8,
            bank.spec_to_ascii(),
            44u8,
            hex_ascii(address >> 4),
            hex_ascii(address & 0x0F),
            44u8,
            hex_ascii((data.len() / 4) as u8),
            44u8,
        ] + data
    }
}

/// Build the write command frame; data that is empty, not a multiple of four
/// bytes, or longer than 15 words is rejected.
pub fn encode_write(bank: MemoryBank, address: u8, data: &[u8]) -> (r: Result<Vec<u8>, UhfError>)
    ensures
        write_params_ok(data@) ==> (r matches Ok(v) && v@ == spec_write_frame(bank, address, data@)),
        !write_params_ok(data@) ==> (r matches Err(e) && e is InvalidParameter),
{
    if data.len() == 0 || data.len() % 4 != 0 {
        return Err(
            UhfError::InvalidParameter("Data length must be a non-zero multiple of 4".to_owned()),
        );
    }
    if data.len() > 60 {
        return Err(UhfError::InvalidParameter("Data length too large".to_owned()));
    }
    assert(address >= 16 ==> (address >> 4) < 16 && (address & 0x0F) < 16) by (bit_vector);
    let words: u8 = (data.len() / 4) as u8;
    let mut v: Vec<u8> = Vec::new();
    if address < 16 {
        v.push((9 + data.len()) as u8);
        v.push(2);
        v.push(65);
        v.push(87);
        v.push(bank.to_ascii());
        v.push(44);
        v.push(hex_value(address));
        v.push(44);
        v.push(hex_value(words));
        v.push(44);
    } else {
        v.push((10 + data.len()) as u8);
        v.push(2);
        v.push(65);
        v.push(87);
        v.push(bank.to_ascii());
        v.push(44);
        v.push(hex_value(address >> 4));
        v.push(hex_value(address & 0x0F));
        v.push(44);
        v.push(hex_value(words));
        v.push(44);
    }
    let ghost prefix = v@;
    let mut i: usize = 0;
    while i < data.len()
        invariant
            i <= data@.len(),
            v@ =~= prefix + data@.take(i as int),
        decreases data@.len() - i,
    {
        v.push(data[i]);
        i = i + 1;
    }
    proof {
        assert(v@ =~= prefix + data@);
        assert(v@ =~= spec_write_frame(bank, address, data@));
    }
    Ok(v)
}

/// The action command: a fixed five-byte binary frame.
pub open spec fn spec_action_frame(action: u8, time_units: u8) -> Seq<u8> {
    seq![4u8, 2u8, 145u8, action, time_units]
}

/// Build the action (buzzer/LED) command frame.
pub fn encode_action(action: u8, time_units: u8) -> (r: Vec<u8>)
    ensures
        r@ == spec_action_frame(action, time_units),
{
    let mut v: Vec<u8> = Vec::new();
    v.push(4);
    v.push(2);
    v.push(145);
    v.push(action);
    v.push(time_units);
    proof {
        assert(v@ =~= spec_action_frame(action, time_units));
    }
    v
}

/// The set-access-password command: declared length 11, marker 2, opcode
/// letters `AP`, then the eight password bytes.
pub open spec fn spec_password_frame(password: Seq<u8>) -> Seq<u8> {
    seq![11u8, 2u8, 65u8, 80u8] + password
}

/// Build the set-access-password command frame.
pub fn encode_set_password(password: &[u8; 8]) -> (r: Vec<u8>)
    ensures
        r@ == spec_password_frame(password@),
{
    let mut v: Vec<u8> = Vec::new();
    v.push(11);
    v.push(2);
    v.push(65);
    v.push(80);
    let mut i: usize = 0;
    while i < 8
        invariant
            i <= 8,
            v@ =~= seq![11u8, 2u8, 65u8, 80u8] + password@.take(i as int),
        decreases 8 - i,
    {
        v.push(password[i]);
        i = i + 1;
    }
    proof {
        assert(v@ =~= spec_password_frame(password@));
    }
    v
}

/// The lock command: declared length 10, marker 2, opcode letters `AL`, then
/// the six ASCII bytes of the lock setting.
pub open spec fn spec_lock_frame(setting: Seq<u8>) -> Seq<u8> {
    seq![10u8, 2u8, 65u8, 76u8] + setting
}

/// Build the lock command frame.
pub fn encode_lock(lock_setting: &[u8; 6]) -> (r: Vec<u8>)
    ensures
        r@ == spec_lock_frame(lock_setting@),
{
    let mut v: Vec<u8> = Vec::new();
    v.push(10);
    v.push(2);
    v.push(65);
    v.push(76);
    let mut i: usize = 0;
    while i < 6
        invariant
            i <= 6,
            v@ =~= seq![10u8, 2u8, 65u8, 76u8] + lock_setting@.take(i as int),
        decreases 6 - i,
    {
        v.push(lock_setting[i]);
        i = i + 1;
    }
    proof {
        assert(v@ =~= spec_lock_frame(lock_setting@));
    }
    v
}

/// The command that starts an inventory round.
pub open spec fn spec_inventory_start_frame() -> Seq<u8> {
    seq![3u8, 2u8, 0x55u8, 0x80u8]
}

/// Build the inventory start command frame.
pub fn encode_inventory_start() -> (r: Vec<u8>)
    ensures
        r@ == spec_inventory_start_frame(),
{
    let mut v: Vec<u8> = Vec::new();
    v.push(3);
    v.push(2);
    v.push(0x55);
    v.push(0x80);
    proof {
        assert(v@ =~= spec_inventory_start_frame());
    }
    v
}

/// The follow-up command that polls for the next tag.
pub open spec fn spec_inventory_poll_frame() -> Seq<u8> {
    seq![3u8, 2u8, 0x55u8, 0x91u8]
}

/// Build the inventory poll command frame.
pub fn encode_inventory_poll() -> (r: Vec<u8>)
    ensures
        r@ == spec_inventory_poll_frame(),
{
    let mut v: Vec<u8> = Vec::new();
    v.push(3);
    v.push(2);
    v.push(0x55);
    v.push(0x91);
    proof {
        assert(v@ =~= spec_inventory_poll_frame());
    }
    v
}

/// A read response is valid when it has at least 6 bytes and echoes the `R`
/// opcode at offset 4.
pub open spec fn read_response_valid(resp: Seq<u8>) -> bool {
    resp.len() >= 6 && resp[4] == 82
}

/// The payload of a valid read response: everything after the five header
/// bytes, truncated to four bytes per requested word.
pub open spec fn spec_read_payload(resp: Seq<u8>, words: u8) -> Seq<u8> {
    let avail = resp.len() - 5;
    let want = 4 * (words as int);
    resp.subrange(5, 5 + (if want <= avail {
        want
    } else {
        avail
    }))
}

/// Validate a read response and extract its payload.
pub fn decode_read(resp: &Vec<u8>, words: u8) -> (r: Result<Vec<u8>, UhfError>)
    ensures
        read_response_valid(resp@) ==> (r matches Ok(v) && v@ == spec_read_payload(resp@, words)),
        !read_response_valid(resp@) ==> (r matches Err(e) && e is InvalidResponse),
{
    if resp.len() >= 6 && resp[4] == 82 {
        let avail = resp.len() - 5;
        let want = 4 * (words as usize);
        let n = if want <= avail {
            want
        } else {
            avail
        };
        let mut out: Vec<u8> = Vec::new();
        let end: usize = 5 + n;
        let mut j: usize = 5;
        while j < end
            invariant
                5 <= j <= end,
                end == 5 + n,
                end <= resp@.len(),
                out@ =~= resp@.subrange(5, j as int),
            decreases end - j,
        {
            out.push(resp[j]);
            j = j + 1;
        }
        proof {
            assert(out@ =~= spec_read_payload(resp@, words));
        }
        Ok(out)
    } else {
        Err(UhfError::InvalidResponse)
    }
}

/// A write response is valid when it is non-empty and starts with byte 8.
pub open spec fn write_response_valid(resp: Seq<u8>) -> bool {
    resp.len() > 0 && resp[0] == 8
}

/// Validate a write response.
pub fn decode_write(resp: &Vec<u8>) -> (r: Result<(), UhfError>)
    ensures
        r is Ok <==> write_response_valid(resp@),
        r matches Err(e) ==> e is InvalidResponse,
{
    if resp.len() > 0 && resp[0] == 8 {
        Ok(())
    } else {
        Err(UhfError::InvalidResponse)
    }
}

/// An action response is valid when its first four bytes echo the action
/// header with a zero status.
pub open spec fn action_response_valid(resp: Seq<u8>) -> bool {
    resp.len() >= 4 && resp[0] == 3 && resp[1] == 2 && resp[2] == 145 && resp[3] == 0
}

/// Validate an action response.
pub fn decode_action(resp: &Vec<u8>) -> (r: Result<(), UhfError>)
    ensures
        r is Ok <==> action_response_valid(resp@),
        r matches Err(e) ==> e is InvalidResponse,
{
    if resp.len() >= 4 && resp[0] == 3 && resp[1] == 2 && resp[2] == 145 && resp[3] == 0 {
        Ok(())
    } else {
        Err(UhfError::InvalidResponse)
    }
}

/// A set-access-password response is valid exactly when its first five bytes
/// are 4, 2, 65, 0, 80.
pub open spec fn password_response_valid(resp: Seq<u8>) -> bool {
    resp.len() >= 5 && resp[0] == 4 && resp[1] == 2 && resp[2] == 65 && resp[3] == 0 && resp[4]
        == 80
}

/// Validate a set-access-password response.
pub fn decode_set_password(resp: &Vec<u8>) -> (r: Result<(), UhfError>)
    ensures
        r is Ok <==> password_response_valid(resp@),
        r matches Err(e) ==> e is InvalidResponse,
{
    if resp.len() >= 5 && resp[0] == 4 && resp[1] == 2 && resp[2] == 65 && resp[3] == 0 && resp[4]
        == 80 {
        Ok(())
    } else {
        Err(UhfError::InvalidResponse)
    }
}

/// A lock response is valid when it starts with byte 8, echoes the `L` opcode
/// at offset 4 and ends its header with the letters `OK`.
pub open spec fn lock_response_valid(resp: Seq<u8>) -> bool {
    resp.len() >= 8 && resp[0] == 8 && resp[4] == 76 && resp[6] == 79 && resp[7] == 75
}

/// Validate a lock response.
pub fn decode_lock(resp: &Vec<u8>) -> (r: Result<(), UhfError>)
    ensures
        r is Ok <==> lock_response_valid(resp@),
        r matches Err(e) ==> e is InvalidResponse,
{
    if resp.len() >= 8 && resp[0] == 8 && resp[4] == 76 && resp[6] == 79 && resp[7] == 75 {
        Ok(())
    } else {
        Err(UhfError::InvalidResponse)
    }
}

/// For every bank and word count, an address below 16 yields a 9-byte read
/// frame with declared length 8 and a single address digit, while an address
/// of 16 or more yields a 10-byte frame with declared length 9 and two
/// address digits.
pub proof fn lemma_read_frame_shape(bank: MemoryBank, address: u8, words: u8)
    ensures
        address < 16 ==> spec_read_frame(bank, address, words).len() == 9 && spec_read_frame(
            bank,
            address,
            words,
        )[0] == 8,
        address >= 16 ==> spec_read_frame(bank, address, words).len() == 10 && spec_read_frame(
            bank,
            address,
            words,
        )[0] == 9,
{
}

/// For every word count up to 9 the encoded count byte is `'0'` plus the
/// count; for counts 10 to 15 it is the count plus 55.  The count byte is the
/// last byte of every read frame.
pub proof fn lemma_word_count_encoding(bank: MemoryBank, address: u8, words: u8)
    requires
        words <= 15,
    ensures
        words <= 9 ==> hex_ascii(words) == 48 + words,
        words >= 10 ==> hex_ascii(words) == 55 + words,
        spec_read_frame(bank, address, words).last() == hex_ascii(words),
{
}

} // verus!
