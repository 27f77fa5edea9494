use crate::error::PipelineError;
use vstd::prelude::*;

verus! {

/// The signed 16-bit little-endian sample whose low byte is `lo` and whose
/// high byte is `hi`.
pub open spec fn sample_of(lo: u8, hi: u8) -> int {
    let u = hi * 256 + lo;
    if u >= 0x8000 {
        u - 0x10000
    } else {
        u
    }
}

/// `s` holds the samples encoded by `bytes`, two bytes each.
pub open spec fn decodes(bytes: Seq<u8>, s: Seq<i16>) -> bool {
    &&& 2 * s.len() == bytes.len()
    &&& forall|i: int|
        0 <= i < s.len() ==> #[trigger] s[i] as int == sample_of(bytes[2 * i], bytes[2 * i + 1])
}

/// The transform input built from a frame of samples: the samples, then as
/// many zeros.
pub open spec fn padded(s: Seq<i16>) -> Seq<i16> {
    s + Seq::new(s.len(), |i: int| 0i16)
}

fn read_sample(lo: u8, hi: u8) -> (r: i16)
    ensures
        r as int == sample_of(lo, hi),
{
    let u: i32 = (hi as i32) * 256 + lo as i32;
    if u >= 0x8000 {
        (u - 0x10000) as i16
    } else {
        u as i16
    }
}

/// Decodes one captured frame of mono signed 16-bit little-endian PCM into
/// `n` samples. The frame must hold exactly `2n` bytes.
pub fn decode_pcm(bytes: &[u8], n: usize) -> (r: Result<Vec<i16>, PipelineError>)
    requires
        n <= usize::MAX / 2,
    ensures
        r is Ok <==> bytes@.len() == 2 * n,
        r matches Ok(s) ==> s@.len() == n && decodes(bytes@, s@),
        r is Err ==> r == Err::<Vec<i16>, PipelineError>(
            PipelineError::DimensionMismatch { expected: (2 * n) as usize, actual: bytes@.len() as usize },
        ),
{
    if bytes.len() != 2 * n {
        return Err(PipelineError::DimensionMismatch { expected: 2 * n, actual: bytes.len() });
    }
    let mut res: Vec<i16> = Vec::new();
    let mut i: usize = 0;
    while i < n
        invariant
            i <= n,
            n <= usize::MAX / 2,
            bytes@.len() == 2 * n,
            res@.len() == i,
            forall|j: int|
                0 <= j < i ==> #[trigger] res@[j] as int == sample_of(bytes@[2 * j], bytes@[2 * j + 1]),
        decreases n - i,
    {
        res.push(read_sample(bytes[2 * i], bytes[2 * i + 1]));
        i = i + 1;
    }
    Ok(res)
}

/// Builds the `2n` transform input from a frame of `n` samples by padding it
/// with `n` zeros. The frame must hold exactly `n` samples.
pub fn transform_input(samples: &[i16], n: usize) -> (r: Result<Vec<i16>, PipelineError>)
    requires
        n <= usize::MAX / 2,
    ensures
        r is Ok <==> samples@.len() == n,
        r matches Ok(s) ==> s@ == padded(samples@),
        r is Err ==> r == Err::<Vec<i16>, PipelineError>(
            PipelineError::DimensionMismatch { expected: n, actual: samples@.len() as usize },
        ),
{
    if samples.len() != n {
        return Err(PipelineError::DimensionMismatch { expected: n, actual: samples.len() });
    }
    let mut res: Vec<i16> = Vec::new();
    let mut i: usize = 0;
    while i < 2 * n
        invariant
            i <= 2 * n,
            n <= usize::MAX / 2,
            samples@.len() == n,
            res@.len() == i,
            forall|j: int| 0 <= j < i ==> #[trigger] res@[j] == padded(samples@)[j],
        decreases 2 * n - i,
    {
        if i < n {
            res.push(samples[i]);
        } else {
            res.push(0);
        }
        i = i + 1;
    }
    assert(res@ =~= padded(samples@));
    Ok(res)
}

} // verus!
