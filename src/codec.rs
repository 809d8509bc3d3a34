//! Little-endian framing of audio samples.
//!
//! A normalized sample travels as the bit pattern of an IEEE-754 single
//! (`f32::to_bits`), so the framing is exact: four bytes per sample, least
//! significant byte first, in sample order.
use vstd::bytes::{
    lemma_auto_spec_u32_to_from_le_bytes, spec_u32_from_le_bytes, spec_u32_to_le_bytes,
    u32_from_le_bytes, u32_to_le_bytes,
};
use vstd::prelude::*;
use vstd::slice::slice_subrange;

verus! {

/// The bytes that stand for a sequence of samples.
pub open spec fn le_encoding(samples: Seq<u32>) -> Seq<u8>
    decreases samples.len(),
{
    if samples.len() == 0 {
        Seq::empty()
    } else {
        le_encoding(samples.drop_last()) + spec_u32_to_le_bytes(samples.last())
    }
}

/// The samples that a byte sequence stands for, read four bytes at a time;
/// a trailing group of fewer than four bytes is not a sample.
pub open spec fn le_decoding(bytes: Seq<u8>) -> Seq<u32>
    decreases bytes.len(),
{
    if bytes.len() < 4 {
        Seq::empty()
    } else {
        le_decoding(bytes.subrange(0, bytes.len() - 4)).push(
            spec_u32_from_le_bytes(bytes.subrange(bytes.len() - 4, bytes.len() as int)),
        )
    }
}

pub proof fn lemma_encoding_len(samples: Seq<u32>)
    ensures
        le_encoding(samples).len() == 4 * samples.len(),
    decreases samples.len(),
{
    lemma_auto_spec_u32_to_from_le_bytes();
    if samples.len() > 0 {
        lemma_encoding_len(samples.drop_last());
    }
}

/// Decoding the encoding of any samples gives back the same bit patterns.
pub proof fn lemma_decode_encode(samples: Seq<u32>)
    ensures
        le_decoding(le_encoding(samples)) == samples,
    decreases samples.len(),
{
    lemma_auto_spec_u32_to_from_le_bytes();
    if samples.len() > 0 {
        let init = samples.drop_last();
        let head = le_encoding(init);
        let tail = spec_u32_to_le_bytes(samples.last());
        let all = le_encoding(samples);
        lemma_encoding_len(init);
        lemma_encoding_len(samples);
        assert(all == head + tail);
        assert(all.subrange(0, all.len() - 4) =~= head);
        assert(all.subrange(all.len() - 4, all.len() as int) =~= tail);
        lemma_decode_encode(init);
        assert(le_decoding(all) =~= samples);
    }
}

/// Encoding the decoding of a byte sequence whose length is a multiple of
/// four gives back the same bytes.
pub proof fn lemma_encode_decode(bytes: Seq<u8>)
    requires
        bytes.len() % 4 == 0,
    ensures
        le_encoding(le_decoding(bytes)) == bytes,
    decreases bytes.len(),
{
    lemma_auto_spec_u32_to_from_le_bytes();
    if bytes.len() >= 4 {
        let n = bytes.len();
        let front = bytes.subrange(0, n - 4);
        let back = bytes.subrange(n - 4, n as int);
        lemma_encode_decode(front);
        let d = le_decoding(bytes);
        assert(d.drop_last() =~= le_decoding(front));
        assert(le_encoding(d) =~= front + back);
        assert(front + back =~= bytes);
    } else {
        assert(bytes =~= Seq::<u8>::empty());
    }
}

/// Frames samples as bytes: four per sample, little-endian, in order.
pub fn encode_samples(samples: &[u32]) -> (bytes: Vec<u8>)
    requires
        4 * samples@.len() <= usize::MAX,
    ensures
        bytes@ == le_encoding(samples@),
        bytes@.len() == 4 * samples@.len(),
{
    proof {
        lemma_auto_spec_u32_to_from_le_bytes();
    }
    let mut bytes: Vec<u8> = Vec::new();
    let mut i: usize = 0;
    while i < samples.len()
        invariant
            i <= samples@.len(),
            bytes@ == le_encoding(samples@.subrange(0, i as int)),
        decreases samples@.len() - i,
    {
        let four = u32_to_le_bytes(samples[i]);
        let ghost before = bytes@;
        bytes.push(four[0]);
        bytes.push(four[1]);
        bytes.push(four[2]);
        bytes.push(four[3]);
        proof {
            let next = samples@.subrange(0, i + 1);
            assert(next.drop_last() =~= samples@.subrange(0, i as int));
            assert(bytes@ =~= before + four@);
        }
        i = i + 1;
    }
    proof {
        assert(samples@.subrange(0, samples@.len() as int) =~= samples@);
        lemma_encoding_len(samples@);
    }
    bytes
}

/// Reads samples back from their framing. A length that is not a multiple of
/// four is no framing of samples, and gives `None`.
pub fn decode_samples(bytes: &[u8]) -> (samples: Option<Vec<u32>>)
    ensures
        bytes@.len() % 4 != 0 <==> samples is None,
        samples matches Some(s) ==> s@ == le_decoding(bytes@),
{
    if bytes.len() % 4 != 0 {
        return None;
    }
    let mut samples: Vec<u32> = Vec::new();
    let mut i: usize = 0;
    while i < bytes.len()
        invariant
            i <= bytes@.len(),
            i % 4 == 0,
            bytes@.len() % 4 == 0,
            samples@ == le_decoding(bytes@.subrange(0, i as int)),
        decreases bytes@.len() - i,
    {
        let group = slice_subrange(bytes, i, i + 4);
        let x = u32_from_le_bytes(group);
        proof {
            let next = bytes@.subrange(0, i + 4);
            assert(next.subrange(0, next.len() - 4) =~= bytes@.subrange(0, i as int));
            assert(next.subrange(next.len() - 4, next.len() as int) =~= group@);
        }
        samples.push(x);
        i = i + 4;
    }
    proof {
        assert(bytes@.subrange(0, bytes@.len() as int) =~= bytes@);
    }
    Some(samples)
}

} // verus!
