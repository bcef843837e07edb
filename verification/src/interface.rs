//! The device command protocol engine: it frames each operation, sends the
//! frame in 64-byte chunks, reassembles the chunked response and validates it
//! against the operation's marker bytes.  All I/O goes through the
//! [`UsbIo`] capability; the engine states what holds of every outcome.

use vstd::prelude::*;

use crate::frames::action_response_valid;
use crate::frames::decode_action;
use crate::frames::decode_lock;
use crate::frames::decode_read;
use crate::frames::decode_set_password;
use crate::frames::decode_write;
use crate::frames::encode_action;
use crate::frames::encode_inventory_poll;
use crate::frames::encode_inventory_start;
use crate::frames::encode_lock;
use crate::frames::encode_read;
use crate::frames::encode_set_password;
use crate::frames::encode_write;
use crate::frames::lock_response_valid;
use crate::frames::password_response_valid;
use crate::frames::read_response_valid;
use crate::frames::spec_read_payload;
use crate::frames::write_params_ok;
use crate::frames::write_response_valid;
use crate::hexstr::ascii_chars;
use crate::hexstr::ascii_to_string;
use crate::hexstr::bytes_eq;
use crate::hexstr::hex_encode_lower;
use crate::hexstr::lemma_hex_lower_ascii;
use crate::hexstr::sentinel_bytes;
use crate::hexstr::spec_hex_lower;
use crate::hexstr::spec_sentinel;
use crate::transport::build_chunks;
use crate::transport::clock_now;
use crate::transport::elapsed_ms;
use crate::transport::response_continues;
use crate::types::MemoryBank;
use crate::types::UhfError;
use crate::types::UsbIo;

verus! {

/// Vendor ID of the RFID reader USB device.
pub const VENDOR_ID: u16 = 0x0e6a;

/// Product ID of the RFID reader USB device.
pub const PRODUCT_ID: u16 = 0x0317;

/// Default endpoint address for writing, used as a fallback.
pub const ENDPOINT_OUT: u8 = 0x03;

/// Default endpoint address for reading, used as a fallback.
pub const ENDPOINT_IN: u8 = 0x82;

/// Per-chunk and per-response timeout in milliseconds.
pub const DEFAULT_TIMEOUT_MS: u64 = 2000;

/// Upper bound on the chunks accumulated into one response, so that a device
/// that never stops sending continuation chunks cannot grow the buffer
/// without bound.
pub const MAX_RESPONSE_CHUNKS: usize = 1024;

/// Number of poll rounds in one inventory scan.
pub const INVENTORY_POLLS: usize = 10;

/// UHF RFID reader protocol handle.
pub struct Interface {
    /// When enabled, the surrounding application may print protocol I/O for
    /// troubleshooting; the engine itself keeps only the flag.
    pub debug_mode: bool,
}

/// A tag record as the inventory scan reports it: the lowercase hex rendering
/// of some response of at least five bytes, truncated to 47 digits, and not
/// equal to the all-zero sentinel.
pub open spec fn valid_tag(s: Seq<char>) -> bool {
    exists|resp: Seq<u8>|
        resp.len() >= 5 && #[trigger] tag_digest(resp) != spec_sentinel() && s == ascii_chars(
            tag_digest(resp),
        )
}

/// The hex rendering of a response, truncated to the first 47 digits.
pub open spec fn tag_digest(resp: Seq<u8>) -> Seq<u8> {
    let h = spec_hex_lower(resp);
    if h.len() >= 47 {
        h.take(47)
    } else {
        h
    }
}

impl Interface {
    /// Enable or disable debug output.
    pub fn set_debug_mode(&mut self, enabled: bool)
        ensures
            final(self).debug_mode == enabled,
    {
        self.debug_mode = enabled;
    }

    /// Send a command to the device, split into padded 64-byte chunks.
    fn send_command(&self, device: &impl UsbIo, data: &[u8]) -> (r: Result<(), UhfError>)
        requires
            data@.len() + 63 <= usize::MAX,
    {
        let chunks = build_chunks(data);
        let mut i: usize = 0;
        while i < chunks.len()
            decreases chunks@.len() - i,
        {
            match device.write_bulk(ENDPOINT_OUT, chunks[i].as_slice(), DEFAULT_TIMEOUT_MS) {
                Ok(_) => {},
                Err(e) => {
                    return Err(e);
                },
            }
            i = i + 1;
        }
        Ok(())
    }

    /// Read a chunked response from the device.  Chunks accumulate until one
    /// of them is short, breaks the continuation convention, or the timeout
    /// elapses; an empty accumulation is an invalid response.
    fn read_response(&self, device: &impl UsbIo, timeout_ms: u64) -> (r: Result<Vec<u8>, UhfError>)
        ensures
            r matches Ok(v) ==> v@.len() > 0,
    {
        let mut response: Vec<u8> = Vec::new();
        let start = clock_now();
        let mut attempts: usize = 0;
        let mut done = false;
        while !done && attempts < MAX_RESPONSE_CHUNKS
            invariant
                attempts <= MAX_RESPONSE_CHUNKS,
            decreases MAX_RESPONSE_CHUNKS - attempts,
        {
            let mut chunk: Vec<u8> = vec![0u8; 64];
            match device.read_bulk(ENDPOINT_IN, &mut chunk, timeout_ms) {
                Ok(len) => {
                    let mut j: usize = 0;
                    while j < len
                        invariant
                            len <= chunk@.len(),
                        decreases len - j,
                    {
                        response.push(chunk[j]);
                        j = j + 1;
                    }
                    if !response_continues(chunk[0], len) {
                        done = true;
                    } else if elapsed_ms(&start) > timeout_ms {
                        done = true;
                    }
                },
                Err(e) => {
                    return Err(e);
                },
            }
            attempts = attempts + 1;
        }
        if response.len() == 0 {
            Err(UhfError::InvalidResponse)
        } else {
            Ok(response)
        }
    }

    /// Read data from the UHF tag: `r_len` words of four bytes each from the
    /// given bank and start address.  Word counts above 15 cannot be encoded
    /// and are rejected; on success the returned data is the payload of some
    /// valid read response.
    pub fn read(&self, device: &impl UsbIo, memory_bank: MemoryBank, address: u8, r_len: u8) -> (r:
        Result<Vec<u8>, UhfError>)
        ensures
            r_len > 15 ==> (r matches Err(e) && e is InvalidParameter),
            r matches Ok(data) ==> r_len <= 15 && exists|resp: Seq<u8>|
                #[trigger] read_response_valid(resp) && data@ == spec_read_payload(resp, r_len),
    {
        let command = match encode_read(memory_bank, address, r_len) {
            Ok(c) => c,
            Err(e) => {
                return Err(e);
            },
        };
        match self.send_command(device, command.as_slice()) {
            Ok(()) => {},
            Err(e) => {
                return Err(e);
            },
        }
        let response = match self.read_response(device, DEFAULT_TIMEOUT_MS) {
            Ok(v) => v,
            Err(e) => {
                return Err(e);
            },
        };
        match decode_read(&response, r_len) {
            Ok(data) => {
                proof {
                    let resp = response@;
                    assert(read_response_valid(resp) && data@ == spec_read_payload(resp, r_len));
                }
                Ok(data)
            },
            Err(e) => Err(e),
        }
    }

    /// Write data to the UHF tag.  The data must be a non-empty sequence of
    /// four-byte words, at most 15 of them; on success some response carried
    /// the write acknowledgement.
    pub fn write(&self, device: &impl UsbIo, memory_bank: MemoryBank, address: u8, data: &[u8]) -> (
        r: Result<(), UhfError>)
        ensures
            !write_params_ok(data@) ==> (r matches Err(e) && e is InvalidParameter),
            r is Ok ==> write_params_ok(data@) && exists|resp: Seq<u8>|
                #[trigger] write_response_valid(resp),
    {
        let command = match encode_write(memory_bank, address, data) {
            Ok(c) => c,
            Err(e) => {
                return Err(e);
            },
        };
        match self.send_command(device, command.as_slice()) {
            Ok(()) => {},
            Err(e) => {
                return Err(e);
            },
        }
        let response = match self.read_response(device, DEFAULT_TIMEOUT_MS) {
            Ok(v) => v,
            Err(e) => {
                return Err(e);
            },
        };
        match decode_write(&response) {
            Ok(()) => {
                proof {
                    assert(write_response_valid(response@));
                }
                Ok(())
            },
            Err(e) => Err(e),
        }
    }

    /// Control buzzer and LED: `action` is a bitmask of indicator bits and
    /// `time_units` a duration in units of 10 ms.  A zero or out-of-range
    /// bitmask is rejected; on success some response carried the action
    /// acknowledgement.
    pub fn action(&self, device: &impl UsbIo, action: u8, time_units: u8) -> (r: Result<
        (),
        UhfError,
    >)
        ensures
            action == 0 || action > 15 ==> (r matches Err(e) && e is InvalidParameter),
            r is Ok ==> 1 <= action <= 15 && exists|resp: Seq<u8>|
                #[trigger] action_response_valid(resp),
    {
        if action == 0 || action > 15 {
            return Err(UhfError::InvalidParameter("Invalid action value".to_owned()));
        }
        let command = encode_action(action, time_units);
        match self.send_command(device, command.as_slice()) {
            Ok(()) => {},
            Err(e) => {
                return Err(e);
            },
        }
        let response = match self.read_response(device, DEFAULT_TIMEOUT_MS) {
            Ok(v) => v,
            Err(e) => {
                return Err(e);
            },
        };
        match decode_action(&response) {
            Ok(()) => {
                proof {
                    assert(action_response_valid(response@));
                }
                Ok(())
            },
            Err(e) => Err(e),
        }
    }

    /// Set the tag's access password from eight password bytes.  On success
    /// some response carried the five acknowledgement bytes.
    pub fn set_access_password(&self, device: &impl UsbIo, password: &[u8; 8]) -> (r: Result<
        (),
        UhfError,
    >)
        ensures
            r is Ok ==> exists|resp: Seq<u8>| #[trigger] password_response_valid(resp),
    {
        let command = encode_set_password(password);
        match self.send_command(device, command.as_slice()) {
            Ok(()) => {},
            Err(e) => {
                return Err(e);
            },
        }
        let response = match self.read_response(device, DEFAULT_TIMEOUT_MS) {
            Ok(v) => v,
            Err(e) => {
                return Err(e);
            },
        };
        match decode_set_password(&response) {
            Ok(()) => {
                proof {
                    assert(password_response_valid(response@));
                }
                Ok(())
            },
            Err(e) => Err(e),
        }
    }

    /// Lock a memory bank with a six-byte ASCII lock setting.  On success
    /// some response carried the lock acknowledgement.
    pub fn lock_memory(&self, device: &impl UsbIo, lock_setting: &[u8; 6]) -> (r: Result<
        (),
        UhfError,
    >)
        ensures
            r is Ok ==> exists|resp: Seq<u8>| #[trigger] lock_response_valid(resp),
    {
        let command = encode_lock(lock_setting);
        match self.send_command(device, command.as_slice()) {
            Ok(()) => {},
            Err(e) => {
                return Err(e);
            },
        }
        let response = match self.read_response(device, DEFAULT_TIMEOUT_MS) {
            Ok(v) => v,
            Err(e) => {
                return Err(e);
            },
        };
        match decode_lock(&response) {
            Ok(()) => {
                proof {
                    assert(lock_response_valid(response@));
                }
                Ok(())
            },
            Err(e) => Err(e),
        }
    }

    /// Run an inventory scan: start one round, then poll up to ten times.
    /// A failed poll ends the scan gracefully with what was gathered so far.
    /// Every reported tag is the truncated hex rendering of some response of
    /// at least five bytes that differs from the all-zero sentinel; the scan
    /// keeps poll order and duplicates.
    pub fn get_epc_list_raw(&self, device: &impl UsbIo) -> (r: Result<Vec<String>, UhfError>)
        ensures
            r matches Ok(tags) ==> tags@.len() <= 10 && forall|i: int|
                0 <= i < tags@.len() ==> valid_tag(#[trigger] tags@[i]@),
    {
        let mut responses: Vec<String> = Vec::new();
        let sentinel = sentinel_bytes();

        let command = encode_inventory_start();
        match self.send_command(device, command.as_slice()) {
            Ok(()) => {},
            Err(e) => {
                return Err(e);
            },
        }
        match self.read_response(device, DEFAULT_TIMEOUT_MS) {
            Ok(_) => {},
            Err(e) => {
                return Err(e);
            },
        }

        let mut round: usize = 0;
        let mut stopped = false;
        while !stopped && round < INVENTORY_POLLS
            invariant
                round <= INVENTORY_POLLS,
                responses@.len() <= round,
                sentinel@ == spec_sentinel(),
                forall|i: int| 0 <= i < responses@.len() ==> valid_tag(#[trigger] responses@[i]@),
            decreases INVENTORY_POLLS - round,
        {
            let followup = encode_inventory_poll();
            if self.send_command(device, followup.as_slice()).is_err() {
                stopped = true;
            } else {
                match self.read_response(device, DEFAULT_TIMEOUT_MS) {
                    Ok(resp) if resp.len() >= 5 => {
                        let mut short_hex = hex_encode_lower(&resp);
                        if short_hex.len() >= 47 {
                            short_hex.truncate(47);
                        }
                        proof {
                            assert(short_hex@ == tag_digest(resp@));
                        }
                        if !bytes_eq(&short_hex, &sentinel) {
                            proof {
                                lemma_hex_lower_ascii(resp@);
                            }
                            let tag = ascii_to_string(&short_hex);
                            proof {
                                let w = resp@;
                                assert(w.len() >= 5 && tag_digest(w) != spec_sentinel() && tag@
                                    == ascii_chars(tag_digest(w)));
                            }
                            responses.push(tag);
                        }
                    },
                    _ => {
                        stopped = true;
                    },
                }
            }
            round = round + 1;
        }

        Ok(responses)
    }
}

} // verus!
