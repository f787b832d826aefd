use lzw_bench::codec::MAX_WIDTH;
use lzw_bench::decode::{decode, store_chunk, DecodeError};

/// A stream of the given width: the width byte, then `data` as the `lzw`
/// encoder packs it, least significant bit first.
fn stream_of(width: u8, data: &[u8]) -> Vec<u8> {
    let mut packed: Vec<u8> = Vec::new();
    {
        let mut encoder = lzw::Encoder::new(lzw::LsbWriter::new(&mut packed), width).unwrap();
        encoder.encode_bytes(data).unwrap();
    }
    let mut stream = vec![width];
    stream.extend_from_slice(&packed);
    stream
}

/// Bytes with long repeats and a slow drift, as an indexed image has.
fn patterned(len: usize) -> Vec<u8> {
    let mut data = Vec::with_capacity(len);
    for i in 0..len {
        let row = i / 160;
        let col = i % 160;
        let brick = ((col + (row / 8 % 2) * 20) / 40 + row / 8) % 7;
        let mortar = if row % 8 == 0 || (col + (row / 8 % 2) * 20) % 40 == 0 { 200 } else { 0 };
        data.push((brick as u8) * 16 + mortar as u8);
    }
    data
}

// The codes 256 (clear), 65, 66, 258 and 257 (end), nine bits each.
const ABAB: [u8; 7] = [8, 0, 131, 8, 17, 24, 16];

#[test]
fn decode_hand_packed_stream() {
    let mut dst = vec![0xEEu8; 16];
    let r = decode(&mut dst, &ABAB);
    assert_eq!(r, Ok(4));
    assert_eq!(&dst[..4], &[65, 66, 65, 66]);
}

#[test]
fn decode_leaves_rest_of_scratch_alone() {
    let mut dst = vec![0xEEu8; 16];
    decode(&mut dst, &ABAB).unwrap();
    assert_eq!(dst.len(), 16);
    assert!(dst[4..].iter().all(|&b| b == 0xEE));
}

#[test]
fn decode_round_trip_short_text() {
    let data = b"TOBEORNOTTOBEORTOBEORNOT";
    let src = stream_of(8, data);
    let mut dst = vec![0u8; 64];
    let r = decode(&mut dst, &src);
    assert_eq!(r, Ok(data.len()));
    assert_eq!(&dst[..data.len()], &data[..]);
}

#[test]
fn decode_round_trip_twenty_thousand_bytes() {
    let data = patterned(20_000);
    let src = stream_of(8, &data);
    let mut dst = vec![0u8; 32 * 1024];
    let r = decode(&mut dst, &src);
    assert_eq!(r, Ok(20_000));
    assert_eq!(&dst[..20_000], &data[..]);
}

#[test]
fn decode_twice_gives_the_same() {
    let data = patterned(5_000);
    let src = stream_of(8, &data);
    let mut dst = vec![7u8; 8 * 1024];
    let first = decode(&mut dst, &src);
    let after_first = dst.clone();
    let second = decode(&mut dst, &src);
    assert_eq!(first, Ok(5_000));
    assert_eq!(second, first);
    assert_eq!(dst, after_first);
}

#[test]
fn decode_into_two_buffers_gives_the_same_bytes() {
    let src = stream_of(8, b"abracadabra abracadabra abracadabra");
    let mut one = vec![0u8; 64];
    let mut two = vec![0xFFu8; 100];
    let n = decode(&mut one, &src).unwrap();
    let m = decode(&mut two, &src).unwrap();
    assert_eq!(n, 35);
    assert_eq!(m, n);
    assert_eq!(&one[..n], &two[..m]);
}

#[test]
fn decode_width_byte_alone_is_an_empty_stream() {
    let mut dst = vec![3u8; 4];
    assert_eq!(decode(&mut dst, &[8]), Ok(0));
    assert_eq!(dst, vec![3u8; 4]);
}

#[test]
fn decode_into_exact_fit() {
    let mut dst = vec![0u8; 4];
    assert_eq!(decode(&mut dst, &ABAB), Ok(4));
    assert_eq!(dst, vec![65, 66, 65, 66]);
}

#[test]
fn decode_scratch_too_small() {
    // The chunks are [65], [66] and [65, 66]: the third does not fit, and
    // none of it is written.
    let mut dst = vec![0xEEu8; 3];
    assert_eq!(decode(&mut dst, &ABAB), Err(DecodeError::ScratchTooSmall));
    assert_eq!(dst, vec![65, 66, 0xEE]);
}

#[test]
fn decode_into_empty_scratch() {
    let mut dst: Vec<u8> = Vec::new();
    assert_eq!(decode(&mut dst, &ABAB), Err(DecodeError::ScratchTooSmall));
    assert_eq!(decode(&mut dst, &[8]), Ok(0));
}

#[test]
fn decode_malformed_code() {
    // A clear code, then the code 300 while the dictionary ends at 257.
    let mut dst = vec![0u8; 16];
    assert_eq!(decode(&mut dst, &[8, 0, 89, 2]), Err(DecodeError::Malformed));
    assert_eq!(dst, vec![0u8; 16]);
}

#[test]
fn decode_malformed_without_clear_code() {
    let mut dst = vec![0u8; 16];
    assert_eq!(decode(&mut dst, &[8, 0xFF, 0xFF, 0xFF]), Err(DecodeError::Malformed));
}

#[test]
fn decode_unsupported_width() {
    let mut dst = vec![9u8; 8];
    assert_eq!(decode(&mut dst, &[MAX_WIDTH + 1, 0, 131]), Err(DecodeError::UnsupportedWidth));
    assert_eq!(decode(&mut dst, &[255]), Err(DecodeError::UnsupportedWidth));
    assert_eq!(dst, vec![9u8; 8]);
}

#[test]
fn decode_widest_supported_width() {
    // Fifteen-bit codes: one byte is not yet a code, so nothing comes out.
    let mut dst = vec![0u8; 8];
    assert_eq!(decode(&mut dst, &[MAX_WIDTH, 0]), Ok(0));
}

#[test]
fn decode_narrow_width_stops_at_a_code_that_needs_no_input() {
    // Three-bit codes 4 (clear), 1, 0, 5 (end). The first byte holds the
    // clear code and all of the next code, so the second round consumes
    // nothing and ends the stream.
    let mut dst = vec![0xEEu8; 8];
    assert_eq!(decode(&mut dst, &[2, 12, 10]), Ok(0));
    assert_eq!(dst, vec![0xEEu8; 8]);
}

#[test]
fn store_chunk_in_the_middle() {
    let mut dst = vec![1u8, 2, 3, 4, 5, 6];
    store_chunk(&mut dst, 2, &[9, 8, 7]);
    assert_eq!(dst, vec![1, 2, 9, 8, 7, 6]);
}

#[test]
fn store_chunk_at_both_ends() {
    let mut dst = vec![1u8, 2, 3];
    store_chunk(&mut dst, 0, &[7]);
    store_chunk(&mut dst, 2, &[8]);
    store_chunk(&mut dst, 3, &[]);
    assert_eq!(dst, vec![7, 2, 8]);
}

/// Bytes from a fixed linear congruential sequence.
fn noise(seed: u64, len: usize) -> Vec<u8> {
    let mut state = seed;
    let mut bytes = Vec::with_capacity(len);
    for _ in 0..len {
        state = state.wrapping_mul(6364136223846793005).wrapping_add(1442695040888963407);
        bytes.push((state >> 33) as u8);
    }
    bytes
}

#[test]
fn decode_noise_at_every_width_ends_and_repeats() {
    for width in 0..=MAX_WIDTH {
        for seed in 0..40u64 {
            let mut src = vec![width];
            src.extend_from_slice(&noise(seed * 31 + width as u64, 16 + (seed as usize) * 50));
            let mut one = vec![0u8; 1 << 16];
            let mut two = vec![0xFFu8; 1 << 16];
            let first = decode(&mut one, &src);
            let second = decode(&mut two, &src);
            assert_eq!(first, second);
            match first {
                Ok(n) => assert_eq!(&one[..n], &two[..n]),
                Err(e) => assert_ne!(e, DecodeError::UnsupportedWidth),
            }
        }
    }
}

#[test]
fn decode_noise_behind_a_clear_code() {
    // A clear code first, so that the dictionary is in use from the start.
    for seed in 0..200u64 {
        let mut src = vec![8u8, 0, 1];
        src.extend_from_slice(&noise(seed, 400));
        let mut one = vec![0u8; 1 << 16];
        let mut two = vec![0u8; 1 << 16];
        let first = decode(&mut one, &src);
        assert_eq!(decode(&mut two, &src), first);
        assert_eq!(one, two);
    }
}

#[test]
fn decode_wide_codes_round_trip() {
    // Codes of nine bits and more never fit into what the last byte left
    // over, so every round consumes input and the stream is drained to its
    // end.
    for width in 8..=11u8 {
        let data = patterned(3_000);
        let src = stream_of(width, &data);
        let mut dst = vec![0u8; 4096];
        assert_eq!(decode(&mut dst, &src), Ok(3_000));
        assert_eq!(&dst[..3_000], &data[..]);
    }
}
