//! From 48 kHz to 24 kHz, by averaging.

use vstd::prelude::*;

use crate::arithmetic;
use crate::arithmetic::half;

verus! {

/// The averages of pairs of samples, rounded towards zero; a last sample without a partner stays
/// as it is.
pub open spec fn averaged(samples: Seq<i16>) -> Seq<i16> {
    Seq::new(
        (samples.len() + 1) / 2,
        |i: int|
            if 2 * i + 1 < samples.len() {
                arithmetic::truncated(samples[2 * i] + samples[2 * i + 1], 2) as i16
            } else {
                samples[2 * i]
            },
    )
}

/// An average lies between the samples that it stands for.
pub proof fn law_average_lies_between(samples: Seq<i16>, i: int)
    requires
        0 <= i,
        2 * i + 1 < samples.len(),
    ensures
        samples[2 * i] <= samples[2 * i + 1] ==> samples[2 * i] <= averaged(samples)[i]
            <= samples[2 * i + 1],
        samples[2 * i] >= samples[2 * i + 1] ==> samples[2 * i] >= averaged(samples)[i]
            >= samples[2 * i + 1],
{
}

/// Brings samples from 48 kHz to 24 kHz by averaging pairs.
pub fn downsample_48_to_24(samples: &[i16]) -> (r: Vec<i16>)
    ensures
        r@ == averaged(samples@),
{
    let mut r: Vec<i16> = Vec::new();
    let n: usize = samples.len();
    let mut i: usize = 0;
    while i < n
        invariant
            n == samples@.len(),
            i <= n,
            i % 2 == 0,
            r@.len() == i / 2,
            forall|k: int| 0 <= k < r@.len() ==> r@[k] == averaged(samples@)[k],
        decreases n - i,
    {
        if n - i >= 2 {
            let sum: i32 = samples[i] as i32 + samples[i + 1] as i32;
            r.push(half(sum) as i16);
            i = i + 2;
        } else {
            r.push(samples[i]);
            assert(r@ =~= averaged(samples@));
            return r;
        }
    }
    assert(r@ =~= averaged(samples@));
    r
}

/// Halving the rate keeps the time and the loudness: two samples become one that lies half way
/// between them, to within half a step, a level signal stays as it is, and a last sample without a
/// partner is kept.
pub proof fn law_pairs_are_averaged(samples: &[i16], r: Vec<i16>, i: int)
    requires
        call_ensures(downsample_48_to_24, (samples,), r),
        0 <= i < r@.len(),
    ensures
        2 * r@.len() == samples@.len() || 2 * r@.len() == samples@.len() + 1,
        2 * i + 1 < samples@.len() ==> {
            let sum = samples@[2 * i] + samples@[2 * i + 1];
            &&& sum >= 0 ==> 2 * r@[i] == sum || 2 * r@[i] == sum - 1
            &&& sum < 0 ==> 2 * r@[i] == sum || 2 * r@[i] == sum + 1
        },
        2 * i + 1 == samples@.len() ==> r@[i] == samples@[2 * i],
{
}

} // verus!
