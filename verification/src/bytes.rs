//! Byte-level building blocks of the commitment scheme: big-endian encoding
//! of 64-bit words and the 64-bit digest that commits to a byte string.
//!
//! The digest is the FNV-1a fold over the bytes; it is deterministic and
//! depends only on the input bytes, which is what the proof-verification
//! contracts rely on.
use vstd::prelude::*;

verus! {

/// The FNV-1a 64-bit offset basis.
pub const DIGEST_OFFSET: u64 = 0xcbf29ce484222325;

/// The FNV-1a 64-bit prime.
pub const DIGEST_PRIME: u64 = 0x100000001b3;

/// One digest step: absorb one byte into the accumulator.
pub open spec fn mix(acc: u64, b: u8) -> u64 {
    vstd::wrapping::u64_specs::wrapping_mul(acc ^ (b as u64), DIGEST_PRIME)
}

/// Digest of a byte string continued from accumulator `acc`.
pub open spec fn digest_from(acc: u64, s: Seq<u8>) -> u64
    decreases s.len(),
{
    if s.len() == 0 {
        acc
    } else {
        digest_from(mix(acc, s[0]), s.skip(1))
    }
}

/// The digest committing to a byte string.
pub open spec fn digest64(s: Seq<u8>) -> u64 {
    digest_from(DIGEST_OFFSET, s)
}

/// Big-endian bytes of a 64-bit word, most significant byte first.
pub open spec fn u64_be(x: u64) -> Seq<u8> {
    seq![
        ((x >> 56) & 0xff) as u8,
        ((x >> 48) & 0xff) as u8,
        ((x >> 40) & 0xff) as u8,
        ((x >> 32) & 0xff) as u8,
        ((x >> 24) & 0xff) as u8,
        ((x >> 16) & 0xff) as u8,
        ((x >> 8) & 0xff) as u8,
        (x & 0xff) as u8,
    ]
}

/// The 64-bit word read from eight big-endian bytes.
pub open spec fn be_u64(s: Seq<u8>) -> u64
    recommends
        s.len() == 8,
{
    ((s[0] as u64) << 56) | ((s[1] as u64) << 48) | ((s[2] as u64) << 40) | ((s[3] as u64) << 32)
        | ((s[4] as u64) << 24) | ((s[5] as u64) << 16) | ((s[6] as u64) << 8) | (s[7] as u64)
}

/// A 64-bit word masked to its low byte fits in a byte.
proof fn lemma_low_byte_fits(y: u64)
    ensures
        (y & 0xff) <= 0xff,
{
    assert((y & 0xff) <= 0xff) by (bit_vector);
}

/// Computes the digest of a byte string.
pub fn digest_of(v: &Vec<u8>) -> (r: u64)
    ensures
        r == digest64(v@),
{
    let mut acc: u64 = DIGEST_OFFSET;
    let mut i: usize = 0;
    proof {
        assert(v@.skip(0) =~= v@);
    }
    while i < v.len()
        invariant
            i <= v@.len(),
            digest_from(acc, v@.skip(i as int)) == digest64(v@),
        decreases v@.len() - i,
    {
        let b = v[i];
        proof {
            assert(v@.skip(i as int)[0] == v@[i as int]);
            assert(v@.skip(i as int).skip(1) =~= v@.skip(i as int + 1));
        }
        acc = (acc ^ (b as u64)).wrapping_mul(DIGEST_PRIME);
        i = i + 1;
    }
    proof {
        assert(v@.skip(v@.len() as int) =~= Seq::<u8>::empty());
    }
    acc
}

/// Appends the big-endian bytes of `x` to `dst`.
pub fn push_u64_be(dst: &mut Vec<u8>, x: u64)
    ensures
        final(dst)@ == old(dst)@ + u64_be(x),
{
    proof {
        lemma_low_byte_fits(x >> 56);
        lemma_low_byte_fits(x >> 48);
        lemma_low_byte_fits(x >> 40);
        lemma_low_byte_fits(x >> 32);
        lemma_low_byte_fits(x >> 24);
        lemma_low_byte_fits(x >> 16);
        lemma_low_byte_fits(x >> 8);
        lemma_low_byte_fits(x);
    }
    dst.push(((x >> 56) & 0xff) as u8);
    dst.push(((x >> 48) & 0xff) as u8);
    dst.push(((x >> 40) & 0xff) as u8);
    dst.push(((x >> 32) & 0xff) as u8);
    dst.push(((x >> 24) & 0xff) as u8);
    dst.push(((x >> 16) & 0xff) as u8);
    dst.push(((x >> 8) & 0xff) as u8);
    dst.push((x & 0xff) as u8);
    proof {
        assert(final(dst)@ =~= old(dst)@ + u64_be(x));
    }
}

/// Appends a copy of `src` to `dst`.
pub fn push_all(dst: &mut Vec<u8>, src: &Vec<u8>)
    ensures
        final(dst)@ == old(dst)@ + src@,
{
    let mut i: usize = 0;
    while i < src.len()
        invariant
            i <= src@.len(),
            dst@ == old(dst)@ + src@.take(i as int),
        decreases src@.len() - i,
    {
        dst.push(src[i]);
        proof {
            assert(old(dst)@ + src@.take(i as int) + seq![src@[i as int]] =~= old(dst)@ + src@.take(
                i as int + 1,
            ));
        }
        i = i + 1;
    }
    proof {
        assert(src@.take(src@.len() as int) =~= src@);
    }
}

/// Reads the 64-bit big-endian word at offset `off`.
pub fn be_u64_at(v: &Vec<u8>, off: usize) -> (r: u64)
    requires
        off + 8 <= v@.len(),
    ensures
        r == be_u64(v@.subrange(off as int, off as int + 8)),
{
    let n = v.len();
    let r = ((v[off] as u64) << 56u64) | ((v[off + 1] as u64) << 48u64) | ((v[off + 2] as u64)
        << 40u64) | ((v[off + 3] as u64) << 32u64) | ((v[off + 4] as u64) << 24u64) | ((v[off
        + 5] as u64) << 16u64) | ((v[off + 6] as u64) << 8u64) | (v[off + 7] as u64);
    proof {
        let s = v@.subrange(off as int, off as int + 8);
        assert(s[0] == v@[off as int]);
        assert(s[1] == v@[off as int + 1]);
        assert(s[2] == v@[off as int + 2]);
        assert(s[3] == v@[off as int + 3]);
        assert(s[4] == v@[off as int + 4]);
        assert(s[5] == v@[off as int + 5]);
        assert(s[6] == v@[off as int + 6]);
        assert(s[7] == v@[off as int + 7]);
    }
    r
}

} // verus!
