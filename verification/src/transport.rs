//! Chunked transport framing: an outgoing command buffer is split into
//! zero-padded 64-byte chunks whose first byte carries a continuation or end
//! marker, and incoming chunks are accumulated until one of them breaks the
//! device's continuation convention.

use vstd::prelude::*;

verus! {

/// Size in bytes of one USB HID transfer.
pub const CHUNK_SIZE: usize = 64;

/// Number of 64-byte chunks needed for a payload of the given length.
pub open spec fn chunk_count(len: nat) -> nat {
    (len + 63) / 64
}

/// The bytes of chunk `i` before any marker overwrite: the payload slice
/// starting at offset `64 * i`, zero-padded to 64 bytes.
pub open spec fn raw_chunk(data: Seq<u8>, i: int) -> Seq<u8> {
    let lo = 64 * i;
    let hi = if lo + 64 <= data.len() {
        lo + 64
    } else {
        data.len() as int
    };
    data.subrange(lo, hi) + Seq::new((64 - (hi - lo)) as nat, |q: int| 0u8)
}

/// Chunk `i` as sent on the wire: for payloads longer than one chunk, the
/// first byte is overwritten with the continuation marker 0x82, or with the
/// end marker 0x02 on the last chunk.
pub open spec fn sent_chunk(data: Seq<u8>, i: int) -> Seq<u8> {
    let raw = raw_chunk(data, i);
    if data.len() > 64 {
        if i + 1 < chunk_count(data.len()) {
            seq![0x82u8] + raw.skip(1)
        } else {
            seq![0x02u8] + raw.skip(1)
        }
    } else {
        raw
    }
}

/// Split a command buffer into the exact chunks that go on the wire.
pub fn build_chunks(data: &[u8]) -> (r: Vec<Vec<u8>>)
    requires
        data@.len() + 63 <= usize::MAX,
    ensures
        r@.len() == chunk_count(data@.len()),
        forall|i: int| 0 <= i < r@.len() ==> #[trigger] r@[i]@ == sent_chunk(data@, i),
{
    let mut chunks: Vec<Vec<u8>> = Vec::new();
    let mut bytes_written: usize = 0;
    while bytes_written < data.len()
        invariant
            data@.len() + 63 <= usize::MAX,
            bytes_written == 64 * chunks@.len(),
            bytes_written == 0 || bytes_written - 64 < data@.len(),
            forall|i: int| 0 <= i < chunks@.len() ==> #[trigger] chunks@[i]@ == sent_chunk(
                data@,
                i,
            ),
        decreases data@.len() + 64 - bytes_written,
    {
        let ghost k = chunks@.len() as int;
        let remaining = data.len() - bytes_written;
        let take_n = if remaining < 64 {
            remaining
        } else {
            64
        };
        let mut chunk: Vec<u8> = vec![0u8; 64];
        let mut j: usize = 0;
        while j < take_n
            invariant
                j <= take_n,
                take_n <= 64,
                bytes_written + take_n <= data@.len(),
                data@.len() + 63 <= usize::MAX,
                chunk@.len() == 64,
                forall|q: int| 0 <= q < j ==> #[trigger] chunk@[q] == data@[bytes_written + q],
                forall|q: int| j <= q < 64 ==> #[trigger] chunk@[q] == 0u8,
            decreases take_n - j,
        {
            chunk.set(j, data[bytes_written + j]);
            j = j + 1;
        }
        proof {
            assert(chunk@ =~= raw_chunk(data@, k));
        }
        if data.len() > 64 {
            if remaining > 64 {
                chunk.set(0, 0x82);
            } else {
                chunk.set(0, 0x02);
            }
            proof {
                assert((k + 1 < chunk_count(data@.len())) <==> (bytes_written + 64
                    < data@.len())) by (nonlinear_arith)
                    requires
                        bytes_written == 64 * k,
                        k >= 0,
                        chunk_count(data@.len()) == (data@.len() + 63) / 64,
                ;
                assert(chunk@ =~= sent_chunk(data@, k));
            }
        }
        chunks.push(chunk);
        bytes_written = bytes_written + 64;
    }
    proof {
        let len = data@.len() as int;
        let k = chunks@.len() as int;
        assert(k == (len + 63) / 64) by (nonlinear_arith)
            requires
                len >= 0,
                k >= 0,
                64 * k >= len,
                k == 0 || 64 * k - 64 < len,
        ;
    }
    chunks
}

/// Every chunk put on the wire is exactly 64 bytes long; for payloads longer
/// than 64 bytes, every chunk but the last begins with the continuation
/// marker 0x82 and the last chunk begins with the end marker 0x02.
pub proof fn lemma_chunk_shape(data: Seq<u8>, i: int)
    requires
        0 <= i < chunk_count(data.len()),
    ensures
        sent_chunk(data, i).len() == 64,
        data.len() > 64 && i + 1 < chunk_count(data.len()) ==> sent_chunk(data, i)[0] == 0x82,
        data.len() > 64 && i + 1 == chunk_count(data.len()) ==> sent_chunk(data, i)[0] == 0x02,
{
    let len = data.len() as int;
    assert(i < (len + 63) / 64 ==> 64 * i < len) by (nonlinear_arith);
}

/// After one incoming chunk, reassembly goes on only when the chunk filled
/// all 64 bytes and its first byte is the device's continuation sentinel 63;
/// a short read or any other first byte ends the response.
pub fn response_continues(first_byte: u8, bytes_read: usize) -> (r: bool)
    ensures
        r == (first_byte == 63 && bytes_read == 64),
{
    first_byte == 63 && bytes_read == 64
}

#[verifier::external_type_specification]
#[verifier::external_body]
pub struct ExInstant(std::time::Instant);

/// Relies on std::time::Instant::now: an opaque point on the monotonic clock.
/// Nothing is assumed about its value.
#[verifier::external_body]
pub(crate) fn clock_now() -> std::time::Instant {
    std::time::Instant::now()
}

/// Relies on std::time::Instant::elapsed: the time since `start`, converted
/// to whole milliseconds and clamped to the u64 range.  Nothing is assumed
/// about its value.
#[verifier::external_body]
pub(crate) fn elapsed_ms(start: &std::time::Instant) -> u64 {
    u64::try_from(start.elapsed().as_millis()).unwrap_or(u64::MAX)
}

} // verus!
