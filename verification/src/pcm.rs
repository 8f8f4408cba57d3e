//! PCM audio: 16-bit signed samples, little-endian on the wire.

use vstd::prelude::*;

verus! {

/// The sample whose two's complement notation has the given low and high byte.
pub open spec fn sample(low: u8, high: u8) -> i16 {
    let pattern: int = low + 256 * high;
    (if pattern < 0x8000 {
        pattern
    } else {
        pattern - 0x1_0000
    }) as i16
}

/// The two's complement bit pattern of a sample.
pub open spec fn pattern(s: i16) -> int {
    if s >= 0 {
        s as int
    } else {
        s + 0x1_0000
    }
}

/// The samples in a run of bytes.  A last byte without a partner is dropped.
pub open spec fn samples(bytes: Seq<u8>) -> Seq<i16> {
    Seq::new((bytes.len() / 2) as nat, |i: int| sample(bytes[2 * i], bytes[2 * i + 1]))
}

/// The bytes of a run of samples.
pub open spec fn bytes(samples: Seq<i16>) -> Seq<u8> {
    Seq::new(
        2 * samples.len(),
        |i: int|
            (if i % 2 == 0 {
                pattern(samples[i / 2]) % 256
            } else {
                pattern(samples[i / 2]) / 256
            }) as u8,
    )
}

/// Reads samples from bytes.
pub fn samples_from_bytes(data: &[u8]) -> (result: Vec<i16>)
    ensures
        result@ == samples(data@),
{
    let mut result: Vec<i16> = Vec::new();
    let n: usize = data.len() / 2;
    let mut i: usize = 0;
    while i < n
        invariant
            i <= n,
            n == data@.len() / 2,
            2 * n <= usize::MAX,
            result@ == samples(data@).take(i as int),
        decreases n - i,
    {
        let low: u8 = data[2 * i];
        let high: u8 = data[2 * i + 1];
        let p: i32 = low as i32 + 256 * (high as i32);
        let s: i16 = if p < 0x8000 { p as i16 } else { (p - 0x1_0000) as i16 };
        result.push(s);
        i = i + 1;
        assert(result@ =~= samples(data@).take(i as int));
    }
    assert(result@ =~= samples(data@));
    result
}

/// Writes samples as bytes.
pub fn bytes_from_samples(data: &[i16]) -> (result: Vec<u8>)
    ensures
        result@ == bytes(data@),
{
    let mut result: Vec<u8> = Vec::new();
    let mut i: usize = 0;
    while i < data.len()
        invariant
            i <= data@.len(),
            result@ == bytes(data@).take(2 * i),
        decreases data@.len() - i,
    {
        let s: i16 = data[i];
        let p: i32 = if s >= 0 { s as i32 } else { s as i32 + 0x1_0000 };
        result.push((p % 256) as u8);
        result.push((p / 256) as u8);
        i = i + 1;
        assert(result@ =~= bytes(data@).take(2 * i));
    }
    assert(result@ =~= bytes(data@));
    result
}

/// Samples that were written as bytes are read back unchanged.
pub proof fn law_samples_read_back(data: Seq<i16>)
    ensures
        samples(bytes(data)) == data,
{
    assert(samples(bytes(data)) =~= data);
}

/// Bytes that were read as samples are written back unchanged, but for a last byte without a
/// partner, which is lost.
pub proof fn law_bytes_write_back(data: Seq<u8>)
    ensures
        bytes(samples(data)) == data.take(data.len() - data.len() % 2),
{
    let back = bytes(samples(data));
    let whole = data.take(data.len() - data.len() % 2);
    assert forall|i: int| 0 <= i < back.len() implies back[i] == whole[i] by {
        assert(i / 2 * 2 + i % 2 == i);
        assert(samples(data)[i / 2] == sample(data[i / 2 * 2], data[i / 2 * 2 + 1]));
    }
    assert(back =~= whole);
}

/// Each sample takes two bytes, in order, the low one first: as a number they are the sample, or
/// 65536 more than it where it is negative.
pub proof fn law_sample_is_two_bytes(data: Seq<i16>, i: int)
    ensures
        bytes(data).len() == 2 * data.len(),
        0 <= i < data.len() ==> bytes(data)[2 * i] + 256 * bytes(data)[2 * i + 1] == if data[i]
            < 0 {
            data[i] + 0x1_0000
        } else {
            data[i] as int
        },
{
}

/// Each two bytes make a sample, in order: it is the number that they are, the low one first, or
/// 65536 less. Nothing else is read.
pub proof fn law_two_bytes_are_a_sample(data: Seq<u8>, i: int)
    ensures
        samples(data).len() == data.len() / 2,
        0 <= i < data.len() / 2 ==> ({
            let number: int = data[2 * i] + 256 * data[2 * i + 1];
            samples(data)[i] == number || samples(data)[i] == number - 0x1_0000
        }),
{
}

} // verus!
