//! Parsing of user-supplied textual values: hex data buffers and 32-bit hex
//! passwords, as the command-line front end hands them in.

use vstd::prelude::*;
use vstd::string::StringSliceAdditionalSpecFns;

use crate::api::decoded_hex;
use crate::api::exp16;
use crate::api::hex_num;
use crate::api::is_hex_digit;
use crate::api::lemma_exp16_small;
use crate::api::lemma_hex_num_bound;
use crate::api::valid_hex_str;
use crate::api::UhfRfidApi;

verus! {

/// Parse a hex string into bytes: the string must have even length and hold
/// only hex digits of either case.
pub fn parse_hex_data(arg: &str) -> (r: Result<Vec<u8>, String>)
    ensures
        arg.spec_bytes().len() % 2 != 0 ==> (r matches Err(m) && m@
            == "Hex data must have an even number of characters"@),
        valid_hex_str(arg.spec_bytes()) ==> (r matches Ok(v) && v@ == decoded_hex(
            arg.spec_bytes(),
        )),
        arg.spec_bytes().len() % 2 == 0 && !valid_hex_str(arg.spec_bytes()) ==> r is Err,
{
    let bytes = arg.as_bytes();
    if bytes.len() % 2 != 0 {
        return Err("Hex data must have an even number of characters".to_owned());
    }
    match UhfRfidApi::ascii_to_hex(arg) {
        Ok(v) => Ok(v),
        Err(_) => Err("Invalid hex data. Use only 0-9 and A-F characters".to_owned()),
    }
}

/// Parse a hex password of one to eight digits into its 32-bit value.
pub fn parse_password(arg: &str) -> (r: Result<u32, String>)
    ensures
        arg.spec_bytes().len() > 8 ==> (r matches Err(m) && m@
            == "Password must be at most 8 hex characters (32 bits)"@),
        1 <= arg.spec_bytes().len() <= 8 && (forall|i: int|
            0 <= i < arg.spec_bytes().len() ==> is_hex_digit(#[trigger] arg.spec_bytes()[i]))
            ==> (r matches Ok(v) && v == hex_num(arg.spec_bytes())),
        arg.spec_bytes().len() == 0 ==> r is Err,
{
    let bytes = arg.as_bytes();
    if bytes.len() > 8 {
        return Err("Password must be at most 8 hex characters (32 bits)".to_owned());
    }
    if bytes.len() == 0 {
        return Err("Invalid hex data. Use only 0-9 and A-F characters".to_owned());
    }
    let mut acc: u32 = 0;
    let mut i: usize = 0;
    while i < bytes.len()
        invariant
            bytes@ == arg.spec_bytes(),
            i <= bytes@.len() <= 8,
            forall|q: int| 0 <= q < i ==> is_hex_digit(#[trigger] bytes@[q]),
            acc == hex_num(bytes@.take(i as int)),
        decreases bytes@.len() - i,
    {
        let d = match UhfRfidApi::hex_digit_value(bytes[i]) {
            Some(v) => v,
            None => {
                return Err("Invalid hex data. Use only 0-9 and A-F characters".to_owned());
            },
        };
        proof {
            lemma_hex_num_bound(bytes@.take(i as int));
            lemma_exp16_small((i + 1) as nat);
            assert(exp16((i + 1) as nat) == 16 * exp16(i as nat));
        }
        acc = acc * 16 + d as u32;
        proof {
            assert(bytes@.take(i + 1int).drop_last() =~= bytes@.take(i as int));
            assert(bytes@.take(i + 1int).last() == bytes@[i as int]);
        }
        i = i + 1;
    }
    proof {
        assert(bytes@.take(bytes@.len() as int) =~= bytes@);
    }
    Ok(acc)
}

} // verus!
