//! Audio normalizer, byte level: raw little-endian 16-bit PCM bytes to
//! sample sequences and back.
//!
//! A sample is kept as the raw signed 16-bit integer; the quantization step
//! to floating point (dividing by 32768) is a bijection on these integers
//! and is applied outside the library, at the service edge. Decoding
//! rejects byte sequences of odd length, and encoding inverts it exactly.

use vstd::prelude::*;

verus! {

/// Error from decoding audio payloads.
#[derive(Debug, Clone, Copy, PartialEq, Eq, Structural)]
pub enum AudioError {
    /// The payload is not valid standard-alphabet base64.
    InvalidBase64,
    /// The PCM byte length is not a multiple of two.
    OddLength,
    /// A WAV byte sequence shorter than a standard header.
    TooSmall,
    /// A WAV byte sequence without a `data` chunk.
    NoDataChunk,
}

impl AudioError {
    /// The error text reported to the client.
    pub open spec fn spec_message(self) -> Seq<char> {
        match self {
            AudioError::InvalidBase64 => "Failed to decode audio: invalid base64 data"@,
            AudioError::OddLength => "Invalid audio data length: must be multiple of 2"@,
            AudioError::TooSmall => "WAV file too small"@,
            AudioError::NoDataChunk => "Could not find data chunk in WAV file"@,
        }
    }

    pub fn message(&self) -> (r: &'static str)
        ensures
            r@ == self.spec_message(),
    {
        match self {
            AudioError::InvalidBase64 => "Failed to decode audio: invalid base64 data",
            AudioError::OddLength => "Invalid audio data length: must be multiple of 2",
            AudioError::TooSmall => "WAV file too small",
            AudioError::NoDataChunk => "Could not find data chunk in WAV file",
        }
    }
}

/// The sample encoded by the little-endian byte pair `(lo, hi)`.
pub open spec fn sample_of_bytes(lo: u8, hi: u8) -> i16 {
    (((hi as u16) << 8) | (lo as u16)) as i16
}

/// The low byte of a sample's little-endian encoding.
pub open spec fn lo_byte(s: i16) -> u8 {
    s as u8
}

/// The high byte of a sample's little-endian encoding.
pub open spec fn hi_byte(s: i16) -> u8 {
    ((s as u16) >> 8) as u8
}

/// The samples encoded by a byte sequence, two bytes per sample,
/// little-endian; a trailing odd byte carries no sample.
pub open spec fn decoded_samples(bytes: Seq<u8>) -> Seq<i16> {
    Seq::new((bytes.len() / 2) as nat, |k: int| sample_of_bytes(bytes[2 * k], bytes[2 * k + 1]))
}

/// The little-endian byte encoding of a sample sequence.
pub open spec fn encoded_bytes(samples: Seq<i16>) -> Seq<u8> {
    Seq::new(
        (samples.len() * 2) as nat,
        |i: int| if i % 2 == 0 { lo_byte(samples[i / 2]) } else { hi_byte(samples[i / 2]) },
    )
}

/// One little-endian byte pair decodes and re-encodes to itself.
pub proof fn lemma_sample_bytes_round_trip(lo: u8, hi: u8)
    ensures
        lo_byte(sample_of_bytes(lo, hi)) == lo,
        hi_byte(sample_of_bytes(lo, hi)) == hi,
{
    assert(((((hi as u16) << 8) | (lo as u16)) as i16) as u8 == lo) by (bit_vector);
    assert((((((((hi as u16) << 8) | (lo as u16)) as i16) as u16) >> 8) as u8) == hi)
        by (bit_vector);
}

/// One sample re-encodes and decodes to itself.
pub proof fn lemma_sample_value_round_trip(s: i16)
    ensures
        sample_of_bytes(lo_byte(s), hi_byte(s)) == s,
{
    assert(((((((s as u16) >> 8) as u8) as u16) << 8) | ((s as u8) as u16)) as i16 == s)
        by (bit_vector);
}

/// Law: decoding a byte sequence of even length and encoding the samples
/// again recovers the original bytes exactly; nothing is lost, reordered
/// or invented on the way to the sample sequence.
pub proof fn lemma_pcm_round_trip(bytes: Seq<u8>)
    requires
        bytes.len() % 2 == 0,
    ensures
        encoded_bytes(decoded_samples(bytes)) == bytes,
{
    let samples = decoded_samples(bytes);
    assert(samples.len() * 2 == bytes.len());
    assert forall|i: int| 0 <= i < bytes.len() implies encoded_bytes(samples)[i] == bytes[i] by {
        let k = i / 2;
        lemma_sample_bytes_round_trip(bytes[2 * k], bytes[2 * k + 1]);
        if i % 2 == 0 {
            assert(2 * k == i);
        } else {
            assert(2 * k + 1 == i);
        }
    }
    assert(encoded_bytes(samples) =~= bytes);
}

/// Law: encoding a sample sequence and decoding the bytes again recovers
/// the samples exactly.
pub proof fn lemma_sample_round_trip(samples: Seq<i16>)
    ensures
        decoded_samples(encoded_bytes(samples)) == samples,
{
    let bytes = encoded_bytes(samples);
    assert(bytes.len() == samples.len() * 2);
    assert forall|k: int| 0 <= k < samples.len() implies decoded_samples(bytes)[k] == samples[k] by {
        assert(bytes[2 * k] == lo_byte(samples[k]));
        assert(bytes[2 * k + 1] == hi_byte(samples[k]));
        lemma_sample_value_round_trip(samples[k]);
    }
    assert(decoded_samples(bytes) =~= samples);
}

/// Decodes raw little-endian 16-bit PCM bytes into samples; rejects byte
/// sequences of odd length.
pub fn decode_pcm_bytes(bytes: &[u8]) -> (r: Result<Vec<i16>, AudioError>)
    ensures
        match r {
            Ok(v) => bytes@.len() % 2 == 0 && v@ == decoded_samples(bytes@),
            Err(e) => bytes@.len() % 2 != 0 && e == AudioError::OddLength,
        },
{
    if bytes.len() % 2 != 0 {
        return Err(AudioError::OddLength);
    }
    let len = bytes.len();
    let n = len / 2;
    assert(2 * n == bytes@.len());
    let mut v: Vec<i16> = Vec::new();
    let mut k: usize = 0;
    while k < n
        invariant
            k <= n,
            len == bytes@.len(),
            2 * n == bytes@.len(),
            v@ == decoded_samples(bytes@).take(k as int),
        decreases n - k,
    {
        let lo = bytes[2 * k];
        let hi = bytes[2 * k + 1];
        let s: i16 = #[verifier::truncate] ((((hi as u16) << 8) | (lo as u16)) as i16);
        v.push(s);
        assert(v@ =~= decoded_samples(bytes@).take(k + 1 as int));
        k = k + 1;
    }
    assert(decoded_samples(bytes@).take(n as int) =~= decoded_samples(bytes@));
    Ok(v)
}

/// The bytes that standard-alphabet base64 decoding yields for a piece of
/// text, or nothing where the text is not valid base64. The result is a
/// function of the text alone.
pub uninterp spec fn b64_standard_decoded(s: Seq<char>) -> Option<Seq<u8>>;

#[verifier::external_type_specification]
#[verifier::external_body]
pub struct ExDecodeError(base64::DecodeError);

/// Relies on base64's `Engine::decode` with the `STANDARD` engine: it
/// decodes standard-alphabet, padded base64 text, depends on the input
/// alone, and rejects anything else.
#[verifier::external_body]
fn base64_decode_standard(data: &str) -> (r: Result<Vec<u8>, base64::DecodeError>)
    ensures
        match r {
            Ok(v) => b64_standard_decoded(data@) == Some(v@),
            Err(_) => b64_standard_decoded(data@) is None,
        },
{
    base64::Engine::decode(&base64::engine::general_purpose::STANDARD, data)
}

/// Decodes a base64-encoded audio payload into raw 16-bit PCM samples:
/// rejects text that is not valid base64 and byte content of odd length.
pub fn decode_audio(data: &str) -> (r: Result<Vec<i16>, AudioError>)
    ensures
        match r {
            Ok(v) => b64_standard_decoded(data@) matches Some(b) && b.len() % 2 == 0
                && v@ == decoded_samples(b),
            Err(e) => match e {
                AudioError::InvalidBase64 => b64_standard_decoded(data@) is None,
                AudioError::OddLength => b64_standard_decoded(data@) matches Some(b)
                    && b.len() % 2 != 0,
                _ => false,
            },
        },
{
    match base64_decode_standard(data) {
        Err(_) => Err(AudioError::InvalidBase64),
        Ok(bytes) => decode_pcm_bytes(bytes.as_slice()),
    }
}

/// Encodes samples back into little-endian 16-bit PCM bytes: the inverse
/// of `decode_pcm_bytes`.
pub fn encode_pcm_bytes(samples: &[i16]) -> (r: Vec<u8>)
    requires
        samples@.len() * 2 <= usize::MAX,
    ensures
        r@ == encoded_bytes(samples@),
{
    let mut out: Vec<u8> = Vec::new();
    let mut k: usize = 0;
    while k < samples.len()
        invariant
            k <= samples@.len(),
            samples@.len() * 2 <= usize::MAX,
            out@ == encoded_bytes(samples@.take(k as int)),
        decreases samples@.len() - k,
    {
        let s = samples[k];
        let lo: u8 = #[verifier::truncate] (s as u8);
        let hi: u8 = #[verifier::truncate] (((s as u16) >> 8) as u8);
        assert(lo == lo_byte(samples@[k as int]));
        assert(hi == hi_byte(samples@[k as int]));
        out.push(lo);
        out.push(hi);
        assert(out@ =~= encoded_bytes(samples@.take(k + 1 as int)));
        k = k + 1;
    }
    assert(encoded_bytes(samples@.take(samples@.len() as int)) =~= encoded_bytes(samples@));
    out
}

} // verus!
