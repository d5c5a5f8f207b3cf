//! Deterministic identity generation: an asset id is the BLAKE2b-256 digest
//! of the owner's serialized identity followed by the owner's mint count.
//!
//! The serialization is fixed and unambiguous: eight little-endian bytes
//! giving the length of the owner identifier, the identifier's bytes, then
//! eight little-endian bytes of the sequence count. Distinct inputs therefore
//! feed the digest distinct byte strings.

use vstd::prelude::*;
use crate::bytes::copy_bytes;

verus! {

/// The BLAKE2b digest, 32-byte output, of a byte string. The algorithm is the
/// outside crate's; only the facts stated of `blake2b_256` are relied on.
pub uninterp spec fn digest_of(data: Seq<u8>) -> Seq<u8>;

/// Relies on `blake2b_simd::Params::hash` with `hash_length(32)`: the digest
/// is a function of the input bytes alone, and `Hash::as_bytes` hands back
/// exactly the 32 configured bytes.
#[verifier::external_body]
fn blake2b_256(data: &Vec<u8>) -> (r: Vec<u8>)
    ensures
        r@ == digest_of(data@),
        r@.len() == 32,
{
    let hash = blake2b_simd::Params::new().hash_length(32).hash(data.as_slice());
    hash.as_bytes().to_vec()
}

/// The eight bytes of `x`, least significant first.
pub open spec fn le8(x: u64) -> Seq<u8> {
    seq![
        (x & 0xff) as u8,
        ((x >> 8) & 0xff) as u8,
        ((x >> 16) & 0xff) as u8,
        ((x >> 24) & 0xff) as u8,
        ((x >> 32) & 0xff) as u8,
        ((x >> 40) & 0xff) as u8,
        ((x >> 48) & 0xff) as u8,
        ((x >> 56) & 0xff) as u8,
    ]
}

/// The byte string handed to the digest for `(owner, sequence)`.
pub open spec fn preimage(owner: Seq<u8>, sequence: u64) -> Seq<u8> {
    le8(owner.len() as u64) + owner + le8(sequence)
}

/// The identity assigned to the owner's `sequence`-th mint.
pub open spec fn nft_id_of(owner: Seq<u8>, sequence: u64) -> Seq<u8> {
    digest_of(preimage(owner, sequence))
}

/// Appends the eight little-endian bytes of `x`.
fn push_le8(v: &mut Vec<u8>, x: u64)
    ensures
        final(v)@ == old(v)@ + le8(x),
{
    proof {
        assert(x & 0xff < 256 && (x >> 8) & 0xff < 256 && (x >> 16) & 0xff < 256
            && (x >> 24) & 0xff < 256 && (x >> 32) & 0xff < 256 && (x >> 40) & 0xff < 256
            && (x >> 48) & 0xff < 256 && (x >> 56) & 0xff < 256) by (bit_vector);
    }
    v.push((x & 0xff) as u8);
    v.push(((x >> 8) & 0xff) as u8);
    v.push(((x >> 16) & 0xff) as u8);
    v.push(((x >> 24) & 0xff) as u8);
    v.push(((x >> 32) & 0xff) as u8);
    v.push(((x >> 40) & 0xff) as u8);
    v.push(((x >> 48) & 0xff) as u8);
    v.push(((x >> 56) & 0xff) as u8);
    proof {
        assert(v@ =~= old(v)@ + le8(x));
    }
}

/// Derives the id of the owner's next asset from the owner's identifier and
/// the number of assets the owner has minted so far. Pure and total: the
/// result is pinned to `nft_id_of`, a function of the two arguments alone.
pub fn generate_nft_id(owner_id: &Vec<u8>, nft_count: u64) -> (r: Vec<u8>)
    ensures
        r@ == nft_id_of(owner_id@, nft_count),
        r@.len() == 32,
{
    let mut seed: Vec<u8> = Vec::new();
    push_le8(&mut seed, owner_id.len() as u64);
    let mut owner_bytes = copy_bytes(owner_id);
    seed.append(&mut owner_bytes);
    push_le8(&mut seed, nft_count);
    proof {
        assert(seed@ =~= preimage(owner_id@, nft_count));
    }
    blake2b_256(&seed)
}

/// Two calls on equal inputs return the same id: the id is a function of the
/// owner and the sequence count, and of nothing else.
pub proof fn lemma_generate_deterministic(o1: Seq<u8>, c1: u64, o2: Seq<u8>, c2: u64)
    requires
        o1 == o2,
        c1 == c2,
    ensures
        nft_id_of(o1, c1) == nft_id_of(o2, c2),
{
}

proof fn lemma_le8_injective(a: u64, b: u64)
    requires
        le8(a) == le8(b),
    ensures
        a == b,
{
    assert(le8(a)[0] == le8(b)[0] && le8(a)[1] == le8(b)[1] && le8(a)[2] == le8(b)[2]
        && le8(a)[3] == le8(b)[3] && le8(a)[4] == le8(b)[4] && le8(a)[5] == le8(b)[5]
        && le8(a)[6] == le8(b)[6] && le8(a)[7] == le8(b)[7]);
    assert(a == b) by (bit_vector)
        requires
            (a & 0xff) as u8 == (b & 0xff) as u8,
            ((a >> 8) & 0xff) as u8 == ((b >> 8) & 0xff) as u8,
            ((a >> 16) & 0xff) as u8 == ((b >> 16) & 0xff) as u8,
            ((a >> 24) & 0xff) as u8 == ((b >> 24) & 0xff) as u8,
            ((a >> 32) & 0xff) as u8 == ((b >> 32) & 0xff) as u8,
            ((a >> 40) & 0xff) as u8 == ((b >> 40) & 0xff) as u8,
            ((a >> 48) & 0xff) as u8 == ((b >> 48) & 0xff) as u8,
            ((a >> 56) & 0xff) as u8 == ((b >> 56) & 0xff) as u8,
    ;
}

/// The serialization feeding the digest is injective: equal preimages can
/// only come from an equal owner and an equal sequence count.
pub proof fn lemma_preimage_injective(o1: Seq<u8>, c1: u64, o2: Seq<u8>, c2: u64)
    requires
        o1.len() <= u64::MAX,
        o2.len() <= u64::MAX,
        preimage(o1, c1) == preimage(o2, c2),
    ensures
        o1 == o2,
        c1 == c2,
{
    let p1 = preimage(o1, c1);
    let p2 = preimage(o2, c2);
    assert(p1.subrange(0, 8) =~= le8(o1.len() as u64));
    assert(p2.subrange(0, 8) =~= le8(o2.len() as u64));
    lemma_le8_injective(o1.len() as u64, o2.len() as u64);
    assert(o1.len() == o2.len());
    let n = o1.len() as int;
    assert(p1.subrange(8, 8 + n) =~= o1);
    assert(p2.subrange(8, 8 + n) =~= o2);
    assert(o1 =~= o2);
    assert(p1.subrange(8 + n, 16 + n) =~= le8(c1));
    assert(p2.subrange(8 + n, 16 + n) =~= le8(c2));
    lemma_le8_injective(c1, c2);
}

/// Sensitivity to the sequence count: for one owner, distinct counts feed the
/// digest distinct byte strings, so the derived ids coincide only where the
/// digest itself collides.
pub proof fn lemma_sequence_sensitivity(owner: Seq<u8>, c1: u64, c2: u64)
    requires
        owner.len() <= u64::MAX,
        c1 != c2,
    ensures
        preimage(owner, c1) != preimage(owner, c2),
{
    if preimage(owner, c1) == preimage(owner, c2) {
        lemma_preimage_injective(owner, c1, owner, c2);
    }
}

/// Cross-owner distinctness: distinct owners feed the digest distinct byte
/// strings at every sequence count, so the derived ids coincide only where
/// the digest itself collides.
pub proof fn lemma_cross_owner_distinct(o1: Seq<u8>, o2: Seq<u8>, c: u64)
    requires
        o1.len() <= u64::MAX,
        o2.len() <= u64::MAX,
        o1 != o2,
    ensures
        preimage(o1, c) != preimage(o2, c),
{
    if preimage(o1, c) == preimage(o2, c) {
        lemma_preimage_injective(o1, c, o2, c);
    }
}

} // verus!
