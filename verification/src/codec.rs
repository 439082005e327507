//! Base64 frames and raw samples on the wire.
use base64::Engine;
use vstd::prelude::*;

verus! {

/// What the padded standard alphabet makes of some bytes.
pub uninterp spec fn standard_base64(bytes: Seq<u8>) -> Seq<char>;

/// What a text in the padded standard alphabet decodes to, if it is one.
pub uninterp spec fn standard_decoded(text: Seq<char>) -> Option<Seq<u8>>;

/// What a text in the unpadded standard alphabet decodes to, if it is one.
pub uninterp spec fn unpadded_decoded(text: Seq<char>) -> Option<Seq<u8>>;

/// `Engine::encode` of `base64`'s `STANDARD`: the text is a function of the
/// bytes, and the same engine decodes it back to them.
#[verifier::external_body]
fn standard_encode(bytes: &[u8]) -> (r: String)
    ensures
        r@ == standard_base64(bytes@),
        standard_decoded(r@) == Some(bytes@),
{
    base64::engine::general_purpose::STANDARD.encode(bytes)
}

/// `Engine::decode` of `base64`'s `STANDARD`: whether the text decodes, and to
/// which bytes, is a function of the text. The error is dropped.
#[verifier::external_body]
fn standard_decode(text: &str) -> (r: Option<Vec<u8>>)
    ensures
        standard_decoded(text@) == bytes_view(r),
{
    base64::engine::general_purpose::STANDARD.decode(text).ok()
}

/// `Engine::decode` of `base64`'s `STANDARD_NO_PAD`: whether the text decodes,
/// and to which bytes, is a function of the text. The error is dropped.
#[verifier::external_body]
fn unpadded_decode(text: &str) -> (r: Option<Vec<u8>>)
    ensures
        unpadded_decoded(text@) == bytes_view(r),
{
    base64::engine::general_purpose::STANDARD_NO_PAD.decode(text).ok()
}

/// The bytes of an optional buffer.
pub open spec fn bytes_view(r: Option<Vec<u8>>) -> Option<Seq<u8>> {
    match r {
        Some(bytes) => Some(bytes@),
        None => None,
    }
}

/// What a data frame holds: padded base64, else unpadded base64, else nothing.
pub open spec fn frame_bytes(padded: Option<Seq<u8>>, unpadded: Option<Seq<u8>>) -> Seq<u8> {
    match (padded, unpadded) {
        (Some(bytes), _) => bytes,
        (None, Some(bytes)) => bytes,
        (None, None) => Seq::empty(),
    }
}

/// The first decoding that succeeded, or no bytes.
pub fn pick_decoded(padded: Option<Vec<u8>>, unpadded: Option<Vec<u8>>) -> (r: Vec<u8>)
    ensures
        r@ == frame_bytes(bytes_view(padded), bytes_view(unpadded)),
{
    match (padded, unpadded) {
        (Some(bytes), _) => bytes,
        (None, Some(bytes)) => bytes,
        (None, None) => Vec::new(),
    }
}

/// The bytes of one base64 data frame. Padding may be missing; a frame that
/// does not decode at all is dropped.
pub fn decode_base64(data: &str) -> (r: Vec<u8>)
    ensures
        r@ == frame_bytes(standard_decoded(data@), unpadded_decoded(data@)),
{
    pick_decoded(standard_decode(data), unpadded_decode(data))
}

/// The bytes as padded standard base64.
pub fn encode_base64(bytes: &[u8]) -> (r: String)
    ensures
        r@ == standard_base64(bytes@),
        standard_decoded(r@) == Some(bytes@),
{
    standard_encode(bytes)
}

/// Decoding what was encoded gives the bytes back, in the terms of the
/// contracts of [`encode_base64`] and [`decode_base64`].
pub fn round_trip(bytes: &[u8]) -> (r: Vec<u8>)
    ensures
        r@ == bytes@,
{
    let text: String = encode_base64(bytes);
    decode_base64(text.as_str())
}

/// One sample as an unsigned sixteen-bit number.
pub open spec fn sample_bits(sample: i16) -> int {
    if sample < 0 {
        sample + 0x1_0000
    } else {
        sample as int
    }
}

/// Sixteen-bit samples as bytes, the low byte of each first.
pub open spec fn pcm16_bytes(samples: Seq<i16>) -> Seq<u8>
    decreases samples.len(),
{
    if samples.len() == 0 {
        Seq::empty()
    } else {
        let bits = sample_bits(samples[samples.len() - 1]);
        pcm16_bytes(samples.subrange(0, samples.len() - 1)).push((bits % 256) as u8).push(
            (bits / 256) as u8,
        )
    }
}

/// The samples as little-endian bytes.
pub fn pcm16_to_bytes(samples: &[i16]) -> (r: Vec<u8>)
    ensures
        r@ == pcm16_bytes(samples@),
{
    let mut out: Vec<u8> = Vec::new();
    let mut i: usize = 0;
    proof {
        assert(samples@.subrange(0, 0) =~= Seq::<i16>::empty());
    }
    while i < samples.len()
        invariant
            i <= samples@.len(),
            out@ == pcm16_bytes(samples@.subrange(0, i as int)),
        decreases samples@.len() - i,
    {
        let sample: i16 = samples[i];
        let bits: u32 = if sample < 0 {
            (sample as i32 + 0x1_0000) as u32
        } else {
            sample as u32
        };
        out.push((bits % 256) as u8);
        out.push((bits / 256) as u8);
        i += 1;
        proof {
            let done = samples@.subrange(0, i as int);
            assert(done.subrange(0, done.len() - 1) =~= samples@.subrange(0, i - 1));
        }
    }
    proof {
        assert(samples@.subrange(0, samples@.len() as int) =~= samples@);
    }
    out
}

/// One chunk of captured samples as the realtime socket takes it.
pub fn pcm16_to_base64(samples: &[i16]) -> (r: String)
    ensures
        r@ == standard_base64(pcm16_bytes(samples@)),
{
    let bytes: Vec<u8> = pcm16_to_bytes(samples);
    encode_base64(bytes.as_slice())
}

} // verus!
