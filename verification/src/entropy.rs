use vstd::prelude::*;
use crate::digest::{sha256, sha256_of};

verus! {

/// Host-observable context of one call, handed in as plain values: the
/// block-level VRF randomness, the identifiers of the executing contract and
/// of the calling party, the block timestamp and the prepaid execution
/// budget. The caller of the library reads these from its environment; the
/// record itself is ephemeral and only ever hashed into a seed.
pub struct CallContext {
    pub random_seed: [u8; 32],
    pub current_account: Vec<u8>,
    pub predecessor_account: Vec<u8>,
    pub block_timestamp: u64,
    pub prepaid_gas: u64,
}

/// The eight bytes of `x` in little-endian order.
pub open spec fn u64_le(x: u64) -> Seq<u8> {
    seq![
        (x & 0xff) as u8,
        ((x >> 8) & 0xff) as u8,
        ((x >> 16) & 0xff) as u8,
        ((x >> 24) & 0xff) as u8,
        ((x >> 32) & 0xff) as u8,
        ((x >> 40) & 0xff) as u8,
        ((x >> 48) & 0xff) as u8,
        ((x >> 56) & 0xff) as u8,
    ]
}

/// The fixed domain-separation tag, the ASCII bytes of
/// "near-sdk-secure-rng-v1", mixed into every seed derivation so that this
/// application's digests are separated from unrelated uses of the hash.
pub open spec fn domain_tag() -> Seq<u8> {
    seq![
        0x6eu8, 0x65, 0x61, 0x72, 0x2d, 0x73, 0x64, 0x6b, 0x2d, 0x73, 0x65, 0x63, 0x75, 0x72,
        0x65, 0x2d, 0x72, 0x6e, 0x67, 0x2d, 0x76, 0x31,
    ]
}

/// The entropy record of a call: the ordered concatenation of the contract
/// identifier, the caller identifier, the little-endian block timestamp and
/// the little-endian prepaid budget.
pub open spec fn context_bytes(c: CallContext) -> Seq<u8> {
    c.current_account@ + c.predecessor_account@ + u64_le(c.block_timestamp) + u64_le(
        c.prepaid_gas,
    )
}

/// The per-call entropy: the digest of the entropy record, so that any
/// change of identifier, timestamp or budget reaches every byte.
pub open spec fn transaction_entropy_of(c: CallContext) -> Seq<u8> {
    sha256_of(context_bytes(c))
}

/// The seed derived from the block VRF randomness, an entropy string and the
/// fixed domain tag: the digest of their concatenation.
pub open spec fn seed_bytes(vrf: Seq<u8>, entropy: Seq<u8>) -> Seq<u8> {
    sha256_of(vrf + entropy + domain_tag())
}

/// The seed a full call context derives: the VRF randomness mixed with the
/// per-call entropy digest.
pub open spec fn seed_of_context(c: CallContext) -> Seq<u8> {
    seed_bytes(c.random_seed@, transaction_entropy_of(c))
}

/// Appends every byte of `src` to `dst`, in order.
fn append_bytes(dst: &mut Vec<u8>, src: &[u8])
    ensures
        final(dst)@ == old(dst)@ + src@,
{
    let mut i: usize = 0;
    while i < src.len()
        invariant
            i <= src@.len(),
            dst@ == old(dst)@ + src@.subrange(0, i as int),
        decreases src@.len() - i,
    {
        let b = *vstd::slice::slice_index_get(src, i);
        dst.push(b);
        i = i + 1;
        proof {
            assert(dst@ =~= old(dst)@ + src@.subrange(0, i as int));
        }
    }
    proof {
        assert(dst@ =~= old(dst)@ + src@);
    }
}

/// The little-endian bytes of `x`, executably.
fn u64_le_bytes(x: u64) -> (r: Vec<u8>)
    ensures
        r@ == u64_le(x),
{
    let mut r: Vec<u8> = Vec::new();
    r.push((x & 0xff) as u8);
    r.push(((x >> 8) & 0xff) as u8);
    r.push(((x >> 16) & 0xff) as u8);
    r.push(((x >> 24) & 0xff) as u8);
    r.push(((x >> 32) & 0xff) as u8);
    r.push(((x >> 40) & 0xff) as u8);
    r.push(((x >> 48) & 0xff) as u8);
    r.push(((x >> 56) & 0xff) as u8);
    proof {
        assert(r@ =~= u64_le(x));
    }
    r
}

/// The domain tag as bytes.
fn domain_tag_bytes() -> (r: Vec<u8>)
    ensures
        r@ == domain_tag(),
{
    let mut r: Vec<u8> = Vec::new();
    r.push(0x6e);
    r.push(0x65);
    r.push(0x61);
    r.push(0x72);
    r.push(0x2d);
    r.push(0x73);
    r.push(0x64);
    r.push(0x6b);
    r.push(0x2d);
    r.push(0x73);
    r.push(0x65);
    r.push(0x63);
    r.push(0x75);
    r.push(0x72);
    r.push(0x65);
    r.push(0x2d);
    r.push(0x72);
    r.push(0x6e);
    r.push(0x67);
    r.push(0x2d);
    r.push(0x76);
    r.push(0x31);
    proof {
        assert(r@ =~= domain_tag());
    }
    r
}

/// Gathers the entropy record of a call: identifiers, timestamp and budget,
/// concatenated in their fixed order.
pub fn collect_entropy(c: &CallContext) -> (r: Vec<u8>)
    ensures
        r@ == context_bytes(*c),
{
    let mut r: Vec<u8> = Vec::new();
    append_bytes(&mut r, c.current_account.as_slice());
    append_bytes(&mut r, c.predecessor_account.as_slice());
    let ts = u64_le_bytes(c.block_timestamp);
    append_bytes(&mut r, ts.as_slice());
    let gas = u64_le_bytes(c.prepaid_gas);
    append_bytes(&mut r, gas.as_slice());
    proof {
        assert(r@ =~= context_bytes(*c));
    }
    r
}

/// The per-call entropy of a context: the digest of its entropy record.
pub fn transaction_entropy(c: &CallContext) -> (r: Vec<u8>)
    ensures
        r@ == transaction_entropy_of(*c),
        r@.len() == 32,
{
    let record = collect_entropy(c);
    let d = sha256(record.as_slice());
    let mut r: Vec<u8> = Vec::new();
    append_bytes(&mut r, d.as_slice());
    proof {
        assert(r@ =~= d@);
    }
    r
}

/// Derives a 32-byte seed from the block VRF randomness and an entropy
/// string: the digest of the randomness, the entropy and the domain tag in
/// that order. Identical inputs always derive identical seeds.
pub fn derive_seed(vrf: &[u8; 32], entropy: &[u8]) -> (r: [u8; 32])
    ensures
        r@ == seed_bytes(vrf@, entropy@),
{
    let mut input: Vec<u8> = Vec::new();
    append_bytes(&mut input, vrf.as_slice());
    append_bytes(&mut input, entropy);
    let tag = domain_tag_bytes();
    append_bytes(&mut input, tag.as_slice());
    proof {
        assert(input@ =~= vrf@ + entropy@ + domain_tag());
    }
    sha256(input.as_slice())
}

/// Derives the seed of a full call context: the VRF randomness mixed with
/// the per-call entropy digest and the domain tag.
pub fn derive_context_seed(c: &CallContext) -> (r: [u8; 32])
    ensures
        r@ == seed_of_context(*c),
{
    let entropy = transaction_entropy(c);
    derive_seed(&c.random_seed, entropy.as_slice())
}

/// Determinism of seed derivation: two contexts whose components agree
/// derive the same seed. A sequence of draws from generators seeded by them
/// is then identical as well, since the stream is keyed by the seed alone.
pub proof fn lemma_seed_deterministic(c1: CallContext, c2: CallContext)
    requires
        c1.random_seed@ == c2.random_seed@,
        c1.current_account@ == c2.current_account@,
        c1.predecessor_account@ == c2.predecessor_account@,
        c1.block_timestamp == c2.block_timestamp,
        c1.prepaid_gas == c2.prepaid_gas,
    ensures
        seed_of_context(c1) == seed_of_context(c2),
{
    assert(context_bytes(c1) == context_bytes(c2));
}

} // verus!
