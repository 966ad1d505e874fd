//! The sticky bucketing hash: a stable string-to-bucket mapping that every
//! evaluator in a fleet computes identically.

use vstd::prelude::*;
use vstd::utf8::encode_utf8;

verus! {

/// Number of buckets a user can land in.
pub const BUCKETS: u32 = 100;

/// The 32-bit accumulator after folding every byte of `bytes`:
/// `acc = (acc * 31 + byte) mod 2^32`, starting from zero.
pub open spec fn hash_acc(bytes: Seq<u8>) -> u32
    decreases bytes.len(),
{
    if bytes.len() == 0 {
        0
    } else {
        ((hash_acc(bytes.drop_last()) as int * 31 + bytes.last() as int) % 0x1_0000_0000) as u32
    }
}

/// The bucket of a string: the accumulator over its UTF-8 bytes, modulo 100.
pub open spec fn bucket_of(s: Seq<char>) -> u32 {
    hash_acc(encode_utf8(s)) % (BUCKETS as u32)
}

/// Bucket of `input` in `[0, 100)`.
pub fn hash_string(input: &str) -> (r: u32)
    ensures
        r == bucket_of(input@),
        r < BUCKETS,
{
    let bytes = input.as_bytes();
    let mut acc: u32 = 0;
    let mut i: usize = 0;
    while i < bytes.len()
        invariant
            bytes@ == encode_utf8(input@),
            i <= bytes@.len(),
            acc == hash_acc(bytes@.subrange(0, i as int)),
        decreases bytes@.len() - i,
    {
        proof {
            let next = bytes@.subrange(0, i + 1);
            assert(next.drop_last() =~= bytes@.subrange(0, i as int));
        }
        acc = acc.wrapping_mul(31).wrapping_add(bytes[i] as u32);
        i = i + 1;
    }
    proof {
        assert(bytes@.subrange(0, i as int) =~= bytes@);
    }
    acc % BUCKETS
}

/// Every string lands in one of the buckets `[0, 100)`.
pub proof fn lemma_bucket_in_range(s: Seq<char>)
    ensures
        bucket_of(s) < BUCKETS,
{
}

/// The empty string lands in bucket zero.
pub proof fn lemma_hash_empty()
    ensures
        bucket_of(Seq::<char>::empty()) == 0,
{
    assert(encode_utf8(Seq::<char>::empty()) =~= Seq::<u8>::empty());
    assert(hash_acc(Seq::<u8>::empty()) == 0);
}

} // verus!
