use vstd::prelude::*;
use rand_chacha::ChaCha20Rng;
use rand_core::{RngCore, SeedableRng};

verus! {

/// The ChaCha20 stream generator of rand_chacha, declared so that a value of
/// it can be held and carried through. Its state is described only by the
/// abstract names below.
#[verifier::external_type_specification]
#[verifier::external_body]
pub struct ExChaCha20Rng(ChaCha20Rng);

/// The 32-byte key a ChaCha20 generator was seeded with.
pub uninterp spec fn chacha_key(rng: ChaCha20Rng) -> Seq<u8>;

/// How many 32-bit words of its stream a ChaCha20 generator has consumed.
pub uninterp spec fn chacha_pos(rng: ChaCha20Rng) -> nat;

/// The 32-bit word that a ChaCha20 generator keyed by `key` returns from
/// `next_u32` when it stands at word position `pos`. The stream is a pure
/// function of the key, so this depends on nothing else.
pub uninterp spec fn stream_u32(key: Seq<u8>, pos: nat) -> u32;

/// The 64-bit value that a ChaCha20 generator keyed by `key` returns from
/// `next_u64` when it stands at word position `pos`.
pub uninterp spec fn stream_u64(key: Seq<u8>, pos: nat) -> u64;

/// The bytes that a ChaCha20 generator keyed by `key` writes into a buffer
/// of length `len` from `fill_bytes` when it stands at word position `pos`.
pub uninterp spec fn stream_bytes(key: Seq<u8>, pos: nat, len: nat) -> Seq<u8>;

/// Relies on ChaCha20Rng::from_seed (SeedableRng): the generator is keyed by
/// the 32-byte seed alone and starts at the beginning of its word stream.
#[verifier::external_body]
pub(crate) fn chacha_from_seed(seed: [u8; 32]) -> (r: ChaCha20Rng)
    ensures
        chacha_key(r) == seed@,
        chacha_pos(r) == 0,
{
    ChaCha20Rng::from_seed(seed)
}

/// Relies on RngCore::next_u32 for ChaCha20Rng (rand_core's BlockRng):
/// returns the stream word at the current position and consumes exactly one
/// 32-bit word; the key never changes.
#[verifier::external_body]
pub(crate) fn chacha_next_u32(rng: &mut ChaCha20Rng) -> (r: u32)
    ensures
        r == stream_u32(chacha_key(*old(rng)), chacha_pos(*old(rng))),
        chacha_key(*final(rng)) == chacha_key(*old(rng)),
        chacha_pos(*final(rng)) == chacha_pos(*old(rng)) + 1,
{
    rng.next_u32()
}

/// Relies on RngCore::next_u64 for ChaCha20Rng (rand_core's BlockRng): in
/// every branch of its source it combines the two stream words at the current
/// position and consumes exactly two 32-bit words; the key never changes.
#[verifier::external_body]
pub(crate) fn chacha_next_u64(rng: &mut ChaCha20Rng) -> (r: u64)
    ensures
        r == stream_u64(chacha_key(*old(rng)), chacha_pos(*old(rng))),
        chacha_key(*final(rng)) == chacha_key(*old(rng)),
        chacha_pos(*final(rng)) == chacha_pos(*old(rng)) + 2,
{
    rng.next_u64()
}

/// Relies on RngCore::fill_bytes for ChaCha20Rng (rand_core's BlockRng): the
/// buffer is filled with the next stream bytes, a pure function of key,
/// position and buffer length, and one word is consumed for every four bytes
/// begun; the key never changes.
#[verifier::external_body]
pub(crate) fn chacha_fill_bytes(rng: &mut ChaCha20Rng, buf: &mut Vec<u8>)
    ensures
        final(buf)@.len() == old(buf)@.len(),
        final(buf)@ == stream_bytes(
            chacha_key(*old(rng)),
            chacha_pos(*old(rng)),
            old(buf)@.len(),
        ),
        chacha_key(*final(rng)) == chacha_key(*old(rng)),
        chacha_pos(*final(rng)) == chacha_pos(*old(rng)) + (old(buf)@.len() + 3) / 4,
{
    rng.fill_bytes(buf.as_mut_slice())
}

} // verus!
