//! Hexadecimal rendering of byte buffers, and the conversion of ASCII byte
//! buffers into strings.  The inventory scanner compares hex renderings
//! against the reader's all-zero sentinel, so the rendering is pinned down
//! byte for byte.

use vstd::prelude::*;

verus! {

/// A nibble as a lowercase ASCII hex digit: `'0'` to `'9'` for values below
/// 10, `'a'` to `'f'` for 10 to 15.
pub open spec fn hex_lower_digit(v: u8) -> u8 {
    if v >= 10 {
        (v + 87) as u8
    } else {
        (v + 48) as u8
    }
}

/// The lowercase hex rendering of a byte buffer: two digits per byte, high
/// nibble first.
pub open spec fn spec_hex_lower(bs: Seq<u8>) -> Seq<u8> {
    Seq::new(
        2 * bs.len(),
        |i: int|
            if i % 2 == 0 {
                hex_lower_digit(bs[i / 2] >> 4)
            } else {
                hex_lower_digit(bs[i / 2] & 0x0F)
            },
    )
}

/// The uppercase hex rendering of a byte buffer: two digits per byte, high
/// nibble first, using `'A'` to `'F'` for values 10 to 15.
pub open spec fn spec_hex_upper(bs: Seq<u8>) -> Seq<u8> {
    Seq::new(
        2 * bs.len(),
        |i: int|
            if i % 2 == 0 {
                crate::frames::hex_ascii(bs[i / 2] >> 4)
            } else {
                crate::frames::hex_ascii(bs[i / 2] & 0x0F)
            },
    )
}

/// A byte buffer read as a character sequence, code point by code point.
pub open spec fn ascii_chars(bs: Seq<u8>) -> Seq<char> {
    bs.map_values(|b: u8| b as char)
}

/// Every byte of a hex rendering is an ASCII code point below 128.
pub proof fn lemma_hex_lower_ascii(bs: Seq<u8>)
    ensures
        forall|i: int|
            0 <= i < spec_hex_lower(bs).len() ==> #[trigger] spec_hex_lower(bs)[i] < 128,
{
    assert forall|i: int| 0 <= i < spec_hex_lower(bs).len() implies #[trigger] spec_hex_lower(
        bs,
    )[i] < 128 by {
        let b = bs[i / 2];
        assert((b >> 4) < 16 && (b & 0x0F) < 16) by (bit_vector);
    }
}

/// Every byte of an uppercase hex rendering is an ASCII code point below 128.
pub proof fn lemma_hex_upper_ascii(bs: Seq<u8>)
    ensures
        forall|i: int|
            0 <= i < spec_hex_upper(bs).len() ==> #[trigger] spec_hex_upper(bs)[i] < 128,
{
    assert forall|i: int| 0 <= i < spec_hex_upper(bs).len() implies #[trigger] spec_hex_upper(
        bs,
    )[i] < 128 by {
        let b = bs[i / 2];
        assert((b >> 4) < 16 && (b & 0x0F) < 16) by (bit_vector);
    }
}

/// Relies on hex::encode: each byte becomes two lowercase ASCII hex digits,
/// high nibble first.
#[verifier::external_body]
pub(crate) fn hex_encode_lower(data: &Vec<u8>) -> (r: Vec<u8>)
    ensures
        r@ == spec_hex_lower(data@),
{
    hex::encode(data).into_bytes()
}

/// Relies on String::from_utf8_lossy: bytes below 128 are valid UTF-8 and
/// become the characters with the same code points.
#[verifier::external_body]
pub(crate) fn ascii_to_string(bytes: &Vec<u8>) -> (r: String)
    requires
        forall|i: int| 0 <= i < bytes@.len() ==> bytes@[i] < 128,
    ensures
        r@ == ascii_chars(bytes@),
{
    String::from_utf8_lossy(bytes.as_slice()).into_owned()
}

/// Render a byte buffer as uppercase ASCII hex digits.
pub fn hex_upper_bytes(data: &[u8]) -> (r: Vec<u8>)
    ensures
        r@ == spec_hex_upper(data@),
{
    let mut out: Vec<u8> = Vec::new();
    let mut i: usize = 0;
    while i < data.len()
        invariant
            i <= data@.len(),
            out@ =~= spec_hex_upper(data@.take(i as int)),
        decreases data@.len() - i,
    {
        let b = data[i];
        assert((b >> 4) < 16 && (b & 0x0F) < 16) by (bit_vector);
        let high = b >> 4;
        let low = b & 0x0F;
        out.push(crate::frames::hex_value(high));
        out.push(crate::frames::hex_value(low));
        proof {
            assert(out@ =~= spec_hex_upper(data@.take(i + 1int)));
        }
        i = i + 1;
    }
    proof {
        assert(data@.take(data@.len() as int) =~= data@);
    }
    out
}

/// Compare two byte buffers for equality.
pub fn bytes_eq(a: &Vec<u8>, b: &Vec<u8>) -> (r: bool)
    ensures
        r == (a@ == b@),
{
    if a.len() != b.len() {
        return false;
    }
    let mut i: usize = 0;
    while i < a.len()
        invariant
            i <= a@.len(),
            a@.len() == b@.len(),
            forall|q: int| 0 <= q < i ==> a@[q] == b@[q],
        decreases a@.len() - i,
    {
        if a[i] != b[i] {
            return false;
        }
        i = i + 1;
    }
    proof {
        assert(a@ =~= b@);
    }
    true
}

/// The 47-character all-zero inventory sentinel: the lowercase hex rendering
/// of the echoed poll header, `04025591`, followed by 39 zero digits.
pub open spec fn spec_sentinel() -> Seq<u8> {
    seq![48u8, 52u8, 48u8, 50u8, 53u8, 53u8, 57u8, 49u8] + Seq::new(39, |i: int| 48u8)
}

/// Build the sentinel as a byte buffer.
pub fn sentinel_bytes() -> (r: Vec<u8>)
    ensures
        r@ == spec_sentinel(),
{
    let mut v: Vec<u8> = Vec::new();
    v.push(48);
    v.push(52);
    v.push(48);
    v.push(50);
    v.push(53);
    v.push(53);
    v.push(57);
    v.push(49);
    let mut i: usize = 0;
    while i < 39
        invariant
            i <= 39,
            v@ =~= seq![48u8, 52u8, 48u8, 50u8, 53u8, 53u8, 57u8, 49u8] + Seq::new(
                i as nat,
                |q: int| 48u8,
            ),
        decreases 39 - i,
    {
        v.push(48);
        i = i + 1;
    }
    proof {
        assert(v@ =~= spec_sentinel());
    }
    v
}

} // verus!
