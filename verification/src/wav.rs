//! One-shot path, compute side: locating and decoding the sample region
//! of a WAV container.
//!
//! The container conversion itself (arbitrary compressed audio to a
//! 16 kHz mono 16-bit PCM WAV) is an external utility run at the service
//! edge; the library takes the resulting bytes, scans them for the data
//! chunk marker, skips the fixed-size chunk header, and decodes the raw
//! samples.

use vstd::prelude::*;

use crate::pcm::{decode_pcm_bytes, decoded_samples, AudioError};

verus! {

/// Whether the four ASCII bytes of the chunk marker `data` stand at `i`.
pub open spec fn is_data_marker(bytes: Seq<u8>, i: int) -> bool {
    &&& bytes[i] == 100u8
    &&& bytes[i + 1] == 97u8
    &&& bytes[i + 2] == 116u8
    &&& bytes[i + 3] == 97u8
}

/// Where the sample region starts: eight bytes (marker and chunk size)
/// past the first occurrence of the marker, scanning from `i`; the scan
/// stops where fewer than nine bytes remain.
pub open spec fn spec_find_data_chunk_from(bytes: Seq<u8>, i: int) -> Option<int>
    decreases bytes.len() - i,
{
    if 0 <= i && i + 8 < bytes.len() {
        if is_data_marker(bytes, i) {
            Some(i + 8)
        } else {
            spec_find_data_chunk_from(bytes, i + 1)
        }
    } else {
        None
    }
}

/// Where the sample region of a WAV byte sequence starts.
pub open spec fn spec_find_data_chunk(bytes: Seq<u8>) -> Option<int> {
    spec_find_data_chunk_from(bytes, 0)
}

/// Finds the start of the sample region: the first `data` marker, plus
/// the eight bytes of marker and chunk size.
pub fn find_data_chunk(bytes: &[u8]) -> (r: Result<usize, AudioError>)
    ensures
        match r {
            Ok(j) => spec_find_data_chunk(bytes@) == Some(j as int),
            Err(e) => e == AudioError::NoDataChunk && spec_find_data_chunk(bytes@) is None,
        },
{
    let len = bytes.len();
    let mut i: usize = 0;
    loop
        invariant
            0 <= i,
            len == bytes@.len(),
            i + 8 <= len || i == 0,
            spec_find_data_chunk(bytes@) == spec_find_data_chunk_from(bytes@, i as int),
        decreases len - i,
    {
        if i + 8 >= len {
            return Err(AudioError::NoDataChunk);
        }
        if bytes[i] == 100 && bytes[i + 1] == 97 && bytes[i + 2] == 116 && bytes[i + 3] == 97 {
            return Ok(i + 8);
        }
        i = i + 1;
    }
}

/// Decodes the samples of a WAV byte sequence: the bytes must at least
/// cover a standard header and hold a `data` chunk; the sample region is
/// decoded as little-endian 16-bit PCM, and a region of odd byte length
/// is rejected.
pub fn wav_samples_from_bytes(bytes: &[u8]) -> (r: Result<Vec<i16>, AudioError>)
    ensures
        match r {
            Ok(v) => bytes@.len() >= 44 && (spec_find_data_chunk(bytes@) matches Some(j)
                && (bytes@.len() - j) % 2 == 0 && v@ == decoded_samples(bytes@.skip(j))),
            Err(e) => match e {
                AudioError::TooSmall => bytes@.len() < 44,
                AudioError::NoDataChunk => bytes@.len() >= 44 && spec_find_data_chunk(
                    bytes@,
                ) is None,
                AudioError::OddLength => bytes@.len() >= 44 && (spec_find_data_chunk(
                    bytes@,
                ) matches Some(j) && (bytes@.len() - j) % 2 != 0),
                _ => false,
            },
        },
{
    let len = bytes.len();
    if len < 44 {
        return Err(AudioError::TooSmall);
    }
    let start = match find_data_chunk(bytes) {
        Err(e) => {
            return Err(e);
        },
        Ok(j) => j,
    };
    proof {
        lemma_find_data_chunk_in_range(bytes@, 0);
    }
    let pcm = &bytes[start..len];
    proof {
        assert(pcm@ =~= bytes@.subrange(start as int, len as int));
        assert(bytes@.subrange(start as int, len as int) =~= bytes@.skip(start as int));
    }
    decode_pcm_bytes(pcm)
}

/// A found sample region start lies within the byte sequence.
pub proof fn lemma_find_data_chunk_in_range(bytes: Seq<u8>, i: int)
    requires
        spec_find_data_chunk_from(bytes, i) is Some,
    ensures
        8 <= spec_find_data_chunk_from(bytes, i)->Some_0 < bytes.len(),
        i + 8 <= spec_find_data_chunk_from(bytes, i)->Some_0,
    decreases bytes.len() - i,
{
    if 0 <= i && i + 8 < bytes.len() {
        if is_data_marker(bytes, i) {
        } else {
            lemma_find_data_chunk_in_range(bytes, i + 1);
        }
    }
}

} // verus!
