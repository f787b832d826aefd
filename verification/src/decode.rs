//! Draining one LZW stream into a scratch buffer.

use vstd::prelude::*;
use crate::codec::{
    Decoder, MAX_WIDTH, decoder_fed, decoder_width, fresh_decoder, lzw_answer, next_chunk,
};

verus! {

/// Why a stream could not be drained.
#[derive(Clone, Copy, Debug, PartialEq, Eq, Structural)]
pub enum DecodeError {
    /// The stream's first byte asks for a code width above `MAX_WIDTH`.
    UnsupportedWidth,
    /// The decoder reported a code that its dictionary cannot hold.
    Malformed,
    /// A chunk did not fit into what was left of the scratch buffer.
    ScratchTooSmall,
}

/// What draining a stream gives: the bytes written, in order, and the
/// failure that stopped it, if one did.
pub ghost struct Drained {
    pub bytes: Seq<u8>,
    pub failure: Option<DecodeError>,
}

/// `bytes` laid over the front of `under`.
pub open spec fn overlay(bytes: Seq<u8>, under: Seq<u8>) -> Seq<u8>
    recommends
        bytes.len() <= under.len(),
{
    bytes + under.skip(bytes.len() as int)
}

/// Draining the rest of a stream with a decoder of the given width that was
/// handed `fed` before, into `room` free bytes. Each round hands the decoder
/// all of `rest` and drops from it what the decoder consumed. A round that
/// consumes nothing ends the stream, and what it produced is not kept. A
/// chunk is written only where all of it fits.
pub open spec fn drained(width: u8, fed: Seq<Seq<u8>>, rest: Seq<u8>, room: nat) -> Drained
    decreases rest.len(),
{
    match lzw_answer(width, fed, rest) {
        None => Drained { bytes: Seq::empty(), failure: Some(DecodeError::Malformed) },
        Some((consumed, chunk)) => {
            if consumed <= 0 || consumed > rest.len() {
                Drained { bytes: Seq::empty(), failure: None }
            } else if chunk.len() > room {
                Drained { bytes: Seq::empty(), failure: Some(DecodeError::ScratchTooSmall) }
            } else {
                let tail = drained(
                    width,
                    fed.push(rest),
                    rest.skip(consumed),
                    (room - chunk.len()) as nat,
                );
                Drained { bytes: chunk + tail.bytes, failure: tail.failure }
            }
        },
    }
}

/// Draining a whole stream: its first byte is the code width, the bytes
/// after it are the codes, read by a decoder that has seen nothing yet.
pub open spec fn decoded(src: Seq<u8>, room: nat) -> Drained
    recommends
        src.len() > 0,
{
    if src[0] > MAX_WIDTH {
        Drained { bytes: Seq::empty(), failure: Some(DecodeError::UnsupportedWidth) }
    } else {
        drained(src[0], Seq::empty(), src.skip(1), room)
    }
}

/// What draining writes never exceeds the room it was given.
pub proof fn lemma_drained_fits(width: u8, fed: Seq<Seq<u8>>, rest: Seq<u8>, room: nat)
    ensures
        drained(width, fed, rest, room).bytes.len() <= room,
    decreases rest.len(),
{
    match lzw_answer(width, fed, rest) {
        None => {},
        Some((consumed, chunk)) => {
            if 0 < consumed <= rest.len() && chunk.len() <= room {
                lemma_drained_fits(
                    width,
                    fed.push(rest),
                    rest.skip(consumed),
                    (room - chunk.len()) as nat,
                );
            }
        },
    }
}

/// Where a stream did not run out of room, more room changes nothing.
pub proof fn lemma_drained_room_to_spare(
    width: u8,
    fed: Seq<Seq<u8>>,
    rest: Seq<u8>,
    room: nat,
    more: nat,
)
    requires
        room <= more,
        drained(width, fed, rest, room).failure != Some(DecodeError::ScratchTooSmall),
    ensures
        drained(width, fed, rest, more) == drained(width, fed, rest, room),
    decreases rest.len(),
{
    match lzw_answer(width, fed, rest) {
        None => {},
        Some((consumed, chunk)) => {
            if 0 < consumed <= rest.len() && chunk.len() <= room {
                lemma_drained_room_to_spare(
                    width,
                    fed.push(rest),
                    rest.skip(consumed),
                    (room - chunk.len()) as nat,
                    (more - chunk.len()) as nat,
                );
            }
        },
    }
}

/// What decoding writes fits into the scratch buffer.
pub proof fn law_decoded_fits(src: Seq<u8>, room: nat)
    ensures
        decoded(src, room).bytes.len() <= room,
{
    if src[0] <= MAX_WIDTH {
        lemma_drained_fits(src[0], Seq::empty(), src.skip(1), room);
    }
}

/// Decoding a stream again into the buffer that an earlier decoding of it
/// left gives the same bytes and the same failure, and leaves the buffer as
/// it is: no call leaves anything behind for the next.
pub proof fn law_decode_repeats(src: Seq<u8>, dst: Seq<u8>)
    ensures
        overlay(decoded(src, dst.len()).bytes, dst).len() == dst.len(),
        decoded(src, overlay(decoded(src, dst.len()).bytes, dst).len()) == decoded(src, dst.len()),
        overlay(decoded(src, dst.len()).bytes, overlay(decoded(src, dst.len()).bytes, dst))
            == overlay(decoded(src, dst.len()).bytes, dst),
{
    let first = decoded(src, dst.len());
    law_decoded_fits(src, dst.len());
    let after = overlay(first.bytes, dst);
    assert(after.len() == dst.len());
    assert(overlay(first.bytes, after) =~= after);
}

/// The content of the scratch buffer has no part in what is decoded, and
/// neither has its length once the stream fits: where a stream did not run
/// out of room, a larger buffer takes the same bytes and gives the same
/// result.
pub proof fn law_room_to_spare(src: Seq<u8>, room: nat, more: nat)
    requires
        room <= more,
        decoded(src, room).failure != Some(DecodeError::ScratchTooSmall),
    ensures
        decoded(src, more) == decoded(src, room),
{
    if src[0] <= MAX_WIDTH {
        lemma_drained_room_to_spare(src[0], Seq::empty(), src.skip(1), room, more);
    }
}

/// Copies `chunk` into `dst` from index `at` on and leaves the rest of `dst`
/// as it was.
pub fn store_chunk(dst: &mut [u8], at: usize, chunk: &[u8])
    requires
        at + chunk@.len() <= old(dst)@.len(),
    ensures
        final(dst)@ == old(dst)@.take(at as int) + chunk@ + old(dst)@.skip(at + chunk@.len()),
{
    let room: usize = dst.len();
    let mut i: usize = 0;
    while i < chunk.len()
        invariant
            i <= chunk@.len(),
            room == dst@.len(),
            at + chunk@.len() <= dst@.len(),
            dst@.len() == old(dst)@.len(),
            dst@ == old(dst)@.take(at as int) + chunk@.take(i as int) + old(dst)@.skip(at + i),
        decreases chunk@.len() - i,
    {
        dst[at + i] = chunk[i];
        i += 1;
        assert(dst@ =~= old(dst)@.take(at as int) + chunk@.take(i as int) + old(dst)@.skip(at + i));
    }
    assert(chunk@.take(i as int) =~= chunk@);
}

/// Decodes the stream `src` into `dst` from index 0 on, with a decoder made
/// for this call alone, and returns the count of bytes written.
///
/// The first byte of `src` is the initial code width. The decoder is handed
/// what is left of the input until it consumes nothing. The call fails
/// where the width is above `MAX_WIDTH`, where the decoder reports a code
/// that it cannot take, and where a chunk does not fit behind the bytes
/// written so far. Whatever happens, `dst` keeps its length, holds the
/// chunks that were written before the end or the failure, and behind them
/// keeps its content.
pub fn decode(dst: &mut [u8], src: &[u8]) -> (r: Result<usize, DecodeError>)
    requires
        src@.len() > 0,
    ensures
        final(dst)@ == overlay(decoded(src@, old(dst)@.len()).bytes, old(dst)@),
        final(dst)@.len() == old(dst)@.len(),
        match decoded(src@, old(dst)@.len()).failure {
            None => r matches Ok(n) && n == decoded(src@, old(dst)@.len()).bytes.len(),
            Some(e) => r == Err::<usize, DecodeError>(e),
        },
{
    let ghost room = old(dst)@.len();
    let width: u8 = src[0];
    if width > MAX_WIDTH {
        assert(dst@ =~= overlay(Seq::empty(), old(dst)@));
        return Err(DecodeError::UnsupportedWidth);
    }
    let mut decoder: Decoder = fresh_decoder(width);
    let mut pos: usize = 1;
    let mut out_bytes: usize = 0;
    let ghost mut written: Seq<u8> = Seq::empty();
    assert(dst@ =~= overlay(written, old(dst)@));
    loop
        invariant
            src@.len() > 0,
            width == src@[0],
            width <= MAX_WIDTH,
            decoder_width(decoder) == width,
            1 <= pos <= src@.len(),
            room == old(dst)@.len(),
            dst@.len() == room,
            out_bytes == written.len(),
            out_bytes <= room,
            dst@ == overlay(written, old(dst)@),
            decoded(src@, room).bytes == written + drained(
                width,
                decoder_fed(decoder),
                src@.skip(pos as int),
                (room - out_bytes) as nat,
            ).bytes,
            decoded(src@, room).failure == drained(
                width,
                decoder_fed(decoder),
                src@.skip(pos as int),
                (room - out_bytes) as nat,
            ).failure,
        decreases src@.len() - pos,
    {
        let ghost fed = decoder_fed(decoder);
        let ghost rest = src@.skip(pos as int);
        let input: &[u8] = vstd::slice::slice_subrange(src, pos, src.len());
        assert(input@ =~= rest);
        match next_chunk(&mut decoder, input) {
            Err(_) => {
                assert(written + Seq::<u8>::empty() =~= written);
                return Err(DecodeError::Malformed);
            },
            Ok((consumed, chunk)) => {
                if consumed == 0 {
                    assert(written + Seq::<u8>::empty() =~= written);
                    return Ok(out_bytes);
                }
                if chunk.len() > dst.len() - out_bytes {
                    assert(written + Seq::<u8>::empty() =~= written);
                    return Err(DecodeError::ScratchTooSmall);
                }
                store_chunk(dst, out_bytes, chunk);
                proof {
                    let tail = drained(
                        width,
                        fed.push(rest),
                        rest.skip(consumed as int),
                        (room - out_bytes - chunk@.len()) as nat,
                    );
                    assert(rest.skip(consumed as int) =~= src@.skip(pos + consumed));
                    assert(written + (chunk@ + tail.bytes) =~= (written + chunk@) + tail.bytes);
                    assert(dst@ =~= overlay(written + chunk@, old(dst)@));
                    written = written + chunk@;
                }
                out_bytes += chunk.len();
                pos += consumed;
            },
        }
    }
}

} // verus!
