//! Transport framing: chunk splitting, padding, markers and the
//! continuation rule for reassembly.

use uhf_rfid::transport::build_chunks;
use uhf_rfid::transport::response_continues;
use uhf_rfid::transport::CHUNK_SIZE;

#[test]
fn empty_payload_makes_no_chunks() {
    let chunks = build_chunks(&[]);
    assert!(chunks.is_empty());
}

#[test]
fn short_payload_is_one_padded_chunk() {
    let data = vec![9u8; 10];
    let chunks = build_chunks(&data);
    assert_eq!(chunks.len(), 1);
    assert_eq!(chunks[0].len(), CHUNK_SIZE);
    assert_eq!(&chunks[0][..10], &data[..]);
    assert!(chunks[0][10..].iter().all(|&b| b == 0));
    // A single-chunk payload keeps its first byte.
    assert_eq!(chunks[0][0], 9);
}

#[test]
fn payload_of_130_bytes_makes_three_marked_chunks() {
    let data: Vec<u8> = (0..130u8).map(|i| i.wrapping_add(1)).collect();
    let chunks = build_chunks(&data);
    assert_eq!(chunks.len(), 3);
    let total: usize = chunks.iter().map(|c| c.len()).sum();
    assert_eq!(total, 192);
    assert_eq!(chunks[0][0], 0x82);
    assert_eq!(chunks[1][0], 0x82);
    assert_eq!(chunks[2][0], 0x02);
    // The rest of each chunk carries the payload slice, zero-padded.
    assert_eq!(&chunks[0][1..64], &data[1..64]);
    assert_eq!(&chunks[1][1..64], &data[65..128]);
    assert_eq!(&chunks[2][1..2], &data[129..130]);
    assert!(chunks[2][2..].iter().all(|&b| b == 0));
}

#[test]
fn exactly_one_chunk_is_not_marked() {
    let data = vec![7u8; 64];
    let chunks = build_chunks(&data);
    assert_eq!(chunks.len(), 1);
    assert_eq!(chunks[0][0], 7);
}

#[test]
fn sixty_five_bytes_make_two_chunks() {
    let data = vec![7u8; 65];
    let chunks = build_chunks(&data);
    assert_eq!(chunks.len(), 2);
    assert_eq!(chunks[0][0], 0x82);
    assert_eq!(chunks[1][0], 0x02);
    assert_eq!(chunks[1][1..].iter().filter(|&&b| b != 0).count(), 0);
}

#[test]
fn continuation_needs_full_chunk_and_sentinel() {
    assert!(response_continues(63, 64));
    // A chunk whose first byte is not 63 stops reassembly even when all 64
    // bytes were read.
    assert!(!response_continues(62, 64));
    assert!(!response_continues(0, 64));
    // A short chunk stops reassembly regardless of its first byte.
    assert!(!response_continues(63, 63));
    assert!(!response_continues(63, 0));
}
