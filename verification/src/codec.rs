//! The boundary to the `lzw` crate. What stands here is assumed of its
//! decoder, not proved; everything else in the library is proved from it.

use vstd::prelude::*;

verus! {

/// `std::io::Error`, which the decoder returns for a stream that it cannot
/// take, held whole: nothing is read from it.
#[verifier::external_type_specification]
#[verifier::external_body]
pub struct ExIoError(std::io::Error);

/// The widest initial code that a decoder is made for here. The decoder
/// shifts a 16-bit one by the width of its codes, which is the initial
/// width plus one: beyond 14 that shift is out of range.
pub const MAX_WIDTH: u8 = 14;

/// One `lzw::Decoder` that reads its codes least significant bit first,
/// held whole. Its dictionary and its bit buffer are hidden from the
/// proofs: they know of a decoder the width it was made with and the inputs
/// it was handed, and nothing else.
#[verifier::external_body]
pub struct Decoder {
    inner: lzw::Decoder<lzw::LsbReader>,
}

/// The initial code width that a decoder was made with.
pub uninterp spec fn decoder_width(d: Decoder) -> u8;

/// The inputs that a decoder was handed so far, the oldest first.
pub uninterp spec fn decoder_fed(d: Decoder) -> Seq<Seq<u8>>;

/// What a decoder of the given width that was handed `fed` before answers
/// when it is handed `input`: the count of bytes it consumed and the chunk
/// it produced, or `None` where it reports a code that it cannot take.
pub uninterp spec fn lzw_answer(width: u8, fed: Seq<Seq<u8>>, input: Seq<u8>) -> Option<
    (int, Seq<u8>),
>;

/// Makes a decoder with `lzw::Decoder::new`, on a reader made with
/// `lzw::LsbReader::new`.
///
/// Assumed: the decoder has the width given and was handed nothing yet.
#[verifier::external_body]
pub(crate) fn fresh_decoder(width: u8) -> (d: Decoder)
    requires
        width <= MAX_WIDTH,
    ensures
        decoder_width(d) == width,
        decoder_fed(d) == Seq::<Seq<u8>>::empty(),
{
    Decoder { inner: lzw::Decoder::new(lzw::LsbReader::new(), width) }
}

/// Hands `input` to the decoder with `lzw::Decoder::decode_bytes`, which
/// reads at most one code from its front.
///
/// Assumed: the decoder keeps its width and has now been handed `input`
/// too. It consumes no more bytes than `input` holds. Its answer, the count
/// of bytes consumed with the chunk produced or else an error, depends on
/// nothing but its width, what it was handed before, and `input`; that
/// answer is what `lzw_answer` names.
#[verifier::external_body]
pub(crate) fn next_chunk<'a>(d: &'a mut Decoder, input: &[u8]) -> (r: Result<
    (usize, &'a [u8]),
    std::io::Error,
>)
    requires
        decoder_width(*old(d)) <= MAX_WIDTH,
    ensures
        decoder_width(*final(d)) == decoder_width(*old(d)),
        decoder_fed(*final(d)) == decoder_fed(*old(d)).push(input@),
        match r {
            Ok((consumed, chunk)) => consumed <= input@.len() && lzw_answer(
                decoder_width(*old(d)),
                decoder_fed(*old(d)),
                input@,
            ) == Some((consumed as int, chunk@)),
            Err(_) => lzw_answer(decoder_width(*old(d)), decoder_fed(*old(d)), input@) is None,
        },
{
    d.inner.decode_bytes(input)
}

} // verus!
