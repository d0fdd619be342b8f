//! Samples as bytes: 16 bits each, the lower byte first.

use vstd::prelude::*;

verus! {

/// The sample whose lower and upper bytes are given.
pub open spec fn sample(low: u8, high: u8) -> int {
    if high < 128 {
        low + 256 * high
    } else {
        low + 256 * high - 65536
    }
}

/// The samples that bytes hold; a last byte without a partner is left out.
pub open spec fn samples(bytes: Seq<u8>) -> Seq<i16> {
    Seq::new(bytes.len() / 2, |i: int| sample(bytes[2 * i], bytes[2 * i + 1]) as i16)
}

/// The byte at position `i` of the bytes that hold `samples`.
pub open spec fn byte(samples: Seq<i16>, i: int) -> u8 {
    let bits = samples[i / 2] as int % 65536;
    if i % 2 == 0 {
        (bits % 256) as u8
    } else {
        (bits / 256) as u8
    }
}

/// The bytes that hold samples.
pub open spec fn bytes(samples: Seq<i16>) -> Seq<u8> {
    Seq::new(2 * samples.len(), |i: int| byte(samples, i))
}

/// Reading the samples of bytes that hold samples gives the samples back.
pub proof fn law_samples_survive(s: Seq<i16>)
    ensures
        samples(bytes(s)) == s,
{
    assert forall|i: int| 0 <= i < s.len() implies samples(bytes(s))[i] == s[i] by {
        lemma_sample_of_bytes(s, i);
    }
    assert(samples(bytes(s)) =~= s);
}

proof fn lemma_sample_of_bytes(s: Seq<i16>, i: int)
    requires
        0 <= i < s.len(),
    ensures
        sample(bytes(s)[2 * i], bytes(s)[2 * i + 1]) == s[i],
{
    assert((2 * i) / 2 == i);
    assert((2 * i + 1) / 2 == i);
}

/// Bytes that hold whole samples are given back by the samples that they hold.
pub proof fn law_bytes_survive(b: Seq<u8>)
    requires
        b.len() % 2 == 0,
    ensures
        bytes(samples(b)) == b,
{
    assert forall|i: int| 0 <= i < b.len() implies bytes(samples(b))[i] == b[i] by {
        let k = i / 2;
        let v = sample(b[2 * k], b[2 * k + 1]);
        assert(samples(b)[k] == v);
        assert(i == 2 * k || i == 2 * k + 1);
        assert(v % 65536 == b[2 * k] + 256 * b[2 * k + 1]);
    }
    assert(bytes(samples(b)) =~= b);
}

/// The sample whose lower and upper bytes are given.
fn join_bytes(low: u8, high: u8) -> (r: i16)
    ensures
        r == sample(low, high),
{
    let bits: i32 = low as i32 + 256 * high as i32;
    if high < 128 {
        bits as i16
    } else {
        (bits - 65536) as i16
    }
}

/// Reads the samples that bytes hold.
pub fn bytes_to_samples(b: &[u8]) -> (r: Vec<i16>)
    ensures
        r@ == samples(b@),
{
    let mut r: Vec<i16> = Vec::new();
    let len: usize = b.len();
    let n: usize = len / 2;
    let mut i: usize = 0;
    while i < n
        invariant
            i <= n,
            n == len / 2,
            len == b@.len(),
            r@.len() == i,
            forall|k: int| 0 <= k < i ==> r@[k] == samples(b@)[k],
        decreases n - i,
    {
        r.push(join_bytes(b[2 * i], b[2 * i + 1]));
        i = i + 1;
    }
    assert(r@ =~= samples(b@));
    r
}

/// Writes samples as bytes.
pub fn samples_to_bytes(s: &[i16]) -> (r: Vec<u8>)
    ensures
        r@ == bytes(s@),
{
    let mut r: Vec<u8> = Vec::new();
    let n: usize = s.len();
    let mut i: usize = 0;
    while i < n
        invariant
            i <= n,
            n == s@.len(),
            r@.len() == 2 * i,
            forall|k: int| 0 <= k < 2 * i ==> r@[k] == byte(s@, k),
        decreases n - i,
    {
        let v: i32 = s[i] as i32;
        let bits: i32 = if v < 0 {
            v + 65536
        } else {
            v
        };
        r.push((bits % 256) as u8);
        r.push((bits / 256) as u8);
        assert(byte(s@, 2 * i as int) == (bits as int % 256) as u8) by {
            assert((2 * i as int) / 2 == i);
        }
        assert(byte(s@, 2 * i + 1) == (bits as int / 256) as u8) by {
            assert((2 * i + 1) / 2 == i as int);
        }
        i = i + 1;
    }
    assert(r@ =~= bytes(s@));
    r
}

/// Each sample is two bytes, the lower first: the two together, as a number of sixteen bits, are
/// the sample.
pub proof fn law_lower_byte_first(s: &[i16], b: Vec<u8>, i: int)
    requires
        call_ensures(samples_to_bytes, (s,), b),
        0 <= i < s@.len(),
    ensures
        b@.len() == 2 * s@.len(),
        (b@[2 * i] + 256 * b@[2 * i + 1] - s@[i]) % 65536 == 0,
        s@[i] >= 0 ==> b@[2 * i] + 256 * b@[2 * i + 1] == s@[i],
{
    assert((2 * i) / 2 == i);
    assert((2 * i + 1) / 2 == i);
    let bits = s@[i] as int % 65536;
    assert(b@[2 * i] == bits % 256);
    assert(b@[2 * i + 1] == bits / 256);
}

/// Samples that are written as bytes are read back as they were, and a byte too many at the end
/// changes nothing.
pub proof fn law_written_samples_are_read_back(
    s: &[i16],
    b: Vec<u8>,
    bytes: &[u8],
    r: Vec<i16>,
    extra: u8,
)
    requires
        call_ensures(samples_to_bytes, (s,), b),
        call_ensures(bytes_to_samples, (bytes,), r),
        bytes@ == b@ || bytes@ == b@.push(extra),
    ensures
        r@ == s@,
{
    law_samples_survive(s@);
    assert(samples(b@.push(extra)) =~= samples(b@));
}

} // verus!
