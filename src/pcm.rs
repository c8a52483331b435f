//! Byte layout of 16-bit PCM samples.
use vstd::prelude::*;

verus! {

/// The sample as an unsigned 16-bit word (two's complement).
pub open spec fn word(s: i16) -> int {
    if s < 0 {
        s + 65536
    } else {
        s as int
    }
}

/// Less significant byte of a sample.
pub open spec fn low_byte(s: i16) -> u8 {
    (word(s) % 256) as u8
}

/// More significant byte of a sample.
pub open spec fn high_byte(s: i16) -> u8 {
    (word(s) / 256) as u8
}

/// `bytes` holds each sample as two bytes, less significant first when
/// `little` holds and more significant first otherwise.
pub open spec fn is_encoding(samples: Seq<i16>, bytes: Seq<u8>, little: bool) -> bool {
    &&& bytes.len() == 2 * samples.len()
    &&& forall|i: int|
        0 <= i < samples.len() ==> if little {
            bytes[2 * i] == low_byte(#[trigger] samples[i]) && bytes[2 * i + 1] == high_byte(samples[i])
        } else {
            bytes[2 * i] == high_byte(#[trigger] samples[i]) && bytes[2 * i + 1] == low_byte(samples[i])
        }
}

/// `bytes` is the in-memory rendering of `samples`: every sample encoded in
/// two bytes, in one byte order for the whole run.
pub open spec fn is_sample_rendering(samples: Seq<i16>, bytes: Seq<u8>) -> bool {
    is_encoding(samples, bytes, true) || is_encoding(samples, bytes, false)
}

/// Relies on bytemuck::cast_slice from `[i16]` to `[u8]`: it reinterprets the
/// samples as their native-endian bytes, two per sample (little- or
/// big-endian, whichever the machine uses), and never fails for this pair of
/// types (`u8` has no stricter alignment and no size remainder).
#[verifier::external_body]
fn cast_samples(samples: &[i16]) -> (r: Vec<u8>)
    ensures
        is_sample_rendering(samples@, r@),
{
    bytemuck::cast_slice::<i16, u8>(samples).to_vec()
}

/// Renders a run of 16-bit samples as bytes, ready for a playback buffer.
pub fn samples_to_bytes(samples: &Vec<i16>) -> (r: Vec<u8>)
    ensures
        is_sample_rendering(samples@, r@),
{
    cast_samples(samples.as_slice())
}

} // verus!
