use vstd::prelude::*;
use rand_chacha::ChaCha20Rng;
use crate::entropy::{derive_context_seed, derive_seed, seed_bytes, seed_of_context, CallContext};
use crate::errors::RngError;
use crate::sample::{
    choice_index, fy_full, fy_rec, gather, id_seq, lemma_gather_sampled,
    lemma_permutation_no_duplicates, lemma_shuffle_is_permutation, lemma_take_multiset_subset,
    range_sample64, sampled_indices, shuffle_words, swap_seq, widen_u64,
};
use crate::stream::{
    chacha_fill_bytes, chacha_from_seed, chacha_key, chacha_next_u32, chacha_next_u64, chacha_pos,
    stream_bytes, stream_u32, stream_u64,
};

verus! {

/// The secure generator: a ChaCha20 stream keyed by a seed derived from the
/// call context's entropy. It is described by two abstract quantities, the
/// key of its stream and the cursor, the number of 32-bit words consumed so
/// far; every draw is a pure function of the two, so a fixed seed always
/// reproduces the same sequence of outputs.
pub struct SecureRng {
    inner: ChaCha20Rng,
}

impl SecureRng {
    /// The 32-byte key of the underlying stream.
    pub closed spec fn key(self) -> Seq<u8> {
        chacha_key(self.inner)
    }

    /// How many 32-bit words of the stream have been consumed.
    pub closed spec fn cursor(self) -> nat {
        chacha_pos(self.inner)
    }

    /// A fresh generator for the given call context: its stream is keyed by
    /// the seed the context derives, and starts at the beginning.
    pub fn new(ctx: &CallContext) -> (r: SecureRng)
        ensures
            r.key() == seed_of_context(*ctx),
            r.cursor() == 0,
    {
        let seed = derive_context_seed(ctx);
        SecureRng { inner: chacha_from_seed(seed) }
    }

    /// A generator keyed directly by a 32-byte seed, for reproducing a
    /// stream from a known seed value.
    pub fn from_seed(seed: &[u8; 32]) -> (r: SecureRng)
        ensures
            r.key() == seed@,
            r.cursor() == 0,
    {
        SecureRng { inner: chacha_from_seed(*seed) }
    }

    /// A fresh generator keyed by the context's VRF randomness mixed with a
    /// caller-supplied entropy string in place of the per-call entropy.
    pub fn with_entropy(ctx: &CallContext, additional_entropy: &[u8]) -> (r: SecureRng)
        ensures
            r.key() == seed_bytes(ctx.random_seed@, additional_entropy@),
            r.cursor() == 0,
    {
        let seed = derive_seed(&ctx.random_seed, additional_entropy);
        SecureRng { inner: chacha_from_seed(seed) }
    }

    /// Replaces the stream with one freshly keyed by the given context, as a
    /// new construction would.
    pub fn reseed(&mut self, ctx: &CallContext)
        ensures
            final(self).key() == seed_of_context(*ctx),
            final(self).cursor() == 0,
    {
        let seed = derive_context_seed(ctx);
        self.inner = chacha_from_seed(seed);
    }

    /// One raw 32-bit draw: the stream word at the cursor; the cursor moves
    /// past it.
    pub fn next_u32(&mut self) -> (r: u32)
        ensures
            r == stream_u32(old(self).key(), old(self).cursor()),
            final(self).key() == old(self).key(),
            final(self).cursor() == old(self).cursor() + 1,
    {
        chacha_next_u32(&mut self.inner)
    }

    /// One raw 64-bit draw: two consecutive stream words; the cursor moves
    /// past both.
    pub fn next_u64(&mut self) -> (r: u64)
        ensures
            r == stream_u64(old(self).key(), old(self).cursor()),
            final(self).key() == old(self).key(),
            final(self).cursor() == old(self).cursor() + 2,
    {
        chacha_next_u64(&mut self.inner)
    }

    /// Fills the buffer with the next stream bytes: a pure function of the
    /// key, the cursor and the buffer's length, consuming one word for every
    /// four bytes begun.
    pub fn fill_bytes(&mut self, buf: &mut Vec<u8>)
        ensures
            final(buf)@.len() == old(buf)@.len(),
            final(buf)@ == stream_bytes(old(self).key(), old(self).cursor(), old(buf)@.len()),
            final(self).key() == old(self).key(),
            final(self).cursor() == old(self).cursor() + (old(buf)@.len() + 3) / 4,
    {
        chacha_fill_bytes(&mut self.inner, buf)
    }

    /// An unbiased boolean: the lowest bit of one raw draw, so each value
    /// has probability one half under a uniform stream.
    pub fn bool(&mut self) -> (r: bool)
        ensures
            r == (stream_u64(old(self).key(), old(self).cursor()) & 1 == 1),
            final(self).key() == old(self).key(),
            final(self).cursor() == old(self).cursor() + 2,
    {
        let raw = self.next_u64();
        raw & 1 == 1
    }

    /// A uniform `u8` in `[low, high)`, mapped from one raw draw by the
    /// widening technique; a range whose upper bound is not strictly above
    /// its lower bound is reported, and the stream is left untouched.
    pub fn u8(&mut self, low: u8, high: u8) -> (r: Result<u8, RngError>)
        ensures
            high <= low ==> r == Err::<u8, RngError>(RngError::InvalidRange)
                && final(self).key() == old(self).key()
                && final(self).cursor() == old(self).cursor(),
            low < high ==> r == Ok::<u8, RngError>(
                range_sample64(
                    stream_u64(old(self).key(), old(self).cursor()),
                    low as int,
                    high as int,
                ) as u8,
            )
                && low <= r->Ok_0 < high
                && final(self).key() == old(self).key()
                && final(self).cursor() == old(self).cursor() + 2,
    {
        if high <= low {
            return Err(RngError::InvalidRange);
        }
        let span: u64 = (high - low) as u64;
        let raw = self.next_u64();
        let off = widen_u64(raw, span);
        Ok(low + off as u8)
    }

    /// A uniform `u16` in `[low, high)`; behaves as `u8` does.
    pub fn u16(&mut self, low: u16, high: u16) -> (r: Result<u16, RngError>)
        ensures
            high <= low ==> r == Err::<u16, RngError>(RngError::InvalidRange)
                && final(self).key() == old(self).key()
                && final(self).cursor() == old(self).cursor(),
            low < high ==> r == Ok::<u16, RngError>(
                range_sample64(
                    stream_u64(old(self).key(), old(self).cursor()),
                    low as int,
                    high as int,
                ) as u16,
            )
                && low <= r->Ok_0 < high
                && final(self).key() == old(self).key()
                && final(self).cursor() == old(self).cursor() + 2,
    {
        if high <= low {
            return Err(RngError::InvalidRange);
        }
        let span: u64 = (high - low) as u64;
        let raw = self.next_u64();
        let off = widen_u64(raw, span);
        Ok(low + off as u16)
    }

    /// A uniform `u32` in `[low, high)`; behaves as `u8` does.
    pub fn u32(&mut self, low: u32, high: u32) -> (r: Result<u32, RngError>)
        ensures
            high <= low ==> r == Err::<u32, RngError>(RngError::InvalidRange)
                && final(self).key() == old(self).key()
                && final(self).cursor() == old(self).cursor(),
            low < high ==> r == Ok::<u32, RngError>(
                range_sample64(
                    stream_u64(old(self).key(), old(self).cursor()),
                    low as int,
                    high as int,
                ) as u32,
            )
                && low <= r->Ok_0 < high
                && final(self).key() == old(self).key()
                && final(self).cursor() == old(self).cursor() + 2,
    {
        if high <= low {
            return Err(RngError::InvalidRange);
        }
        let span: u64 = (high - low) as u64;
        let raw = self.next_u64();
        let off = widen_u64(raw, span);
        Ok(low + off as u32)
    }

    /// A uniform `u64` in `[low, high)`; behaves as `u8` does.
    pub fn u64(&mut self, low: u64, high: u64) -> (r: Result<u64, RngError>)
        ensures
            high <= low ==> r == Err::<u64, RngError>(RngError::InvalidRange)
                && final(self).key() == old(self).key()
                && final(self).cursor() == old(self).cursor(),
            low < high ==> r == Ok::<u64, RngError>(
                range_sample64(
                    stream_u64(old(self).key(), old(self).cursor()),
                    low as int,
                    high as int,
                ) as u64,
            )
                && low <= r->Ok_0 < high
                && final(self).key() == old(self).key()
                && final(self).cursor() == old(self).cursor() + 2,
    {
        if high <= low {
            return Err(RngError::InvalidRange);
        }
        let span: u64 = high - low;
        let raw = self.next_u64();
        let off = widen_u64(raw, span);
        Ok(low + off)
    }

    /// A uniform `usize` in `[low, high)`; behaves as `u8` does.
    pub fn usize(&mut self, low: usize, high: usize) -> (r: Result<usize, RngError>)
        ensures
            high <= low ==> r == Err::<usize, RngError>(RngError::InvalidRange)
                && final(self).key() == old(self).key()
                && final(self).cursor() == old(self).cursor(),
            low < high ==> r == Ok::<usize, RngError>(
                range_sample64(
                    stream_u64(old(self).key(), old(self).cursor()),
                    low as int,
                    high as int,
                ) as usize,
            )
                && low <= r->Ok_0 < high
                && final(self).key() == old(self).key()
                && final(self).cursor() == old(self).cursor() + 2,
    {
        if high <= low {
            return Err(RngError::InvalidRange);
        }
        let span: u64 = (high - low) as u64;
        let raw = self.next_u64();
        let off = widen_u64(raw, span);
        Ok(low + off as usize)
    }

    /// A uniform `i32` in `[low, high)`; behaves as `u8` does.
    pub fn i32(&mut self, low: i32, high: i32) -> (r: Result<i32, RngError>)
        ensures
            high <= low ==> r == Err::<i32, RngError>(RngError::InvalidRange)
                && final(self).key() == old(self).key()
                && final(self).cursor() == old(self).cursor(),
            low < high ==> r == Ok::<i32, RngError>(
                range_sample64(
                    stream_u64(old(self).key(), old(self).cursor()),
                    low as int,
                    high as int,
                ) as i32,
            )
                && low <= r->Ok_0 < high
                && final(self).key() == old(self).key()
                && final(self).cursor() == old(self).cursor() + 2,
    {
        if high <= low {
            return Err(RngError::InvalidRange);
        }
        let span: u64 = ((high as i64) - (low as i64)) as u64;
        let raw = self.next_u64();
        let off = widen_u64(raw, span);
        Ok(((low as i64) + (off as i64)) as i32)
    }

    /// A uniform `i64` in `[low, high)`; behaves as `u8` does.
    pub fn i64(&mut self, low: i64, high: i64) -> (r: Result<i64, RngError>)
        ensures
            high <= low ==> r == Err::<i64, RngError>(RngError::InvalidRange)
                && final(self).key() == old(self).key()
                && final(self).cursor() == old(self).cursor(),
            low < high ==> r == Ok::<i64, RngError>(
                range_sample64(
                    stream_u64(old(self).key(), old(self).cursor()),
                    low as int,
                    high as int,
                ) as i64,
            )
                && low <= r->Ok_0 < high
                && final(self).key() == old(self).key()
                && final(self).cursor() == old(self).cursor() + 2,
    {
        if high <= low {
            return Err(RngError::InvalidRange);
        }
        let span: u64 = ((high as i128) - (low as i128)) as u64;
        let raw = self.next_u64();
        let off = widen_u64(raw, span);
        Ok(((low as i128) + (off as i128)) as i64)
    }

    /// Reorders the vector in place by a Fisher-Yates walk: from the last
    /// position down to the second, each element is exchanged with one at a
    /// bounded draw below it. The result is the input's elements in the
    /// stream-determined order: a permutation, with the length and the
    /// multiset of elements unchanged.
    pub fn shuffle<T: Copy>(&mut self, v: &mut Vec<T>)
        ensures
            final(v)@ == fy_full(old(v)@, old(self).key(), old(self).cursor()),
            final(v)@.len() == old(v)@.len(),
            final(v)@.to_multiset() == old(v)@.to_multiset(),
            final(self).key() == old(self).key(),
            final(self).cursor() == old(self).cursor() + shuffle_words(old(v)@.len()),
    {
        let n = v.len();
        if n == 0 {
            return ;
        }
        let ghost key = self.key();
        let ghost pos0 = self.cursor();
        let ghost s0 = v@;
        let mut i: usize = n - 1;
        while 0 < i
            invariant
                v@.len() == n,
                0 < n <= usize::MAX,
                i < n,
                self.key() == key,
                self.cursor() == pos0 + 2 * ((n - 1) - i),
                fy_rec(s0, key, pos0, (n - 1) as nat) == fy_rec(v@, key, self.cursor(), i as nat),
            decreases i,
        {
            let ghost c = self.cursor();
            let ghost before = v@;
            let raw = self.next_u64();
            let j_u64 = widen_u64(raw, (i + 1) as u64);
            let j = j_u64 as usize;
            let a = v[i];
            let b = v[j];
            v.set(i, b);
            v.set(j, a);
            proof {
                assert(v@ =~= swap_seq(before, i as int, j as int));
                assert(fy_rec(before, key, c, i as nat) == fy_rec(
                    swap_seq(before, i as int, j as int),
                    key,
                    c + 2,
                    (i - 1) as nat,
                ));
            }
            i = i - 1;
        }
        proof {
            assert(fy_rec(v@, key, self.cursor(), 0) == v@);
            lemma_shuffle_is_permutation(s0, key, pos0);
        }
    }

    /// One element picked at a bounded draw over the whole slice, or nothing
    /// from an empty slice; the stream is untouched in that case, which is
    /// ordinary control flow, not an error.
    pub fn choice<'a, T>(&mut self, items: &'a [T]) -> (r: Option<&'a T>)
        ensures
            items@.len() == 0 ==> r is None
                && final(self).key() == old(self).key()
                && final(self).cursor() == old(self).cursor(),
            items@.len() > 0 ==> (r matches Some(t) && *t == items@[choice_index(
                old(self).key(),
                old(self).cursor(),
                items@.len(),
            )])
                && final(self).key() == old(self).key()
                && final(self).cursor() == old(self).cursor() + 2,
    {
        let len = items.len();
        if len == 0 {
            return None;
        }
        let raw = self.next_u64();
        let idx = widen_u64(raw, len as u64) as usize;
        Some(vstd::slice::slice_index_get(items, idx))
    }

    /// The index choice of a without-replacement sample: the identity
    /// indices below `n`, shuffled by the stream and cut to the first
    /// `count`. No index repeats and every index is below `n`, so the
    /// elements they pick are pairwise distinct members of the population.
    pub fn sample_indices(&mut self, n: usize, count: usize) -> (r: Vec<usize>)
        requires
            count <= n,
        ensures
            r@ == sampled_indices(old(self).key(), old(self).cursor(), n as nat, count as int),
            r@.len() == count,
            r@.no_duplicates(),
            forall|q: int| 0 <= q < r@.len() ==> r@[q] < n,
            final(self).key() == old(self).key(),
            final(self).cursor() == old(self).cursor() + shuffle_words(n as nat),
    {
        let mut idx: Vec<usize> = Vec::new();
        let mut k: usize = 0;
        while k < n
            invariant
                k <= n,
                idx@.len() == k,
                forall|q: int| 0 <= q < k ==> idx@[q] == q as usize,
            decreases n - k,
        {
            idx.push(k);
            k = k + 1;
        }
        proof {
            assert(idx@ =~= id_seq(n as nat));
            assert(id_seq(n as nat).no_duplicates());
        }
        self.shuffle(&mut idx);
        proof {
            lemma_permutation_no_duplicates(id_seq(n as nat), idx@);
            assert forall|q: int| 0 <= q < idx@.len() implies idx@[q] < n by {
                broadcast use vstd::seq_lib::group_to_multiset_ensures;

                assert(idx@.contains(idx@[q]));
                assert(id_seq(n as nat).to_multiset().count(idx@[q]) > 0);
                assert(id_seq(n as nat).contains(idx@[q]));
                let w = choose|w: int|
                    0 <= w < n && id_seq(n as nat)[w] == idx@[q];
                assert(idx@[q] == w as usize);
            }
        }
        let mut r: Vec<usize> = Vec::new();
        let mut q: usize = 0;
        while q < count
            invariant
                q <= count,
                count <= n,
                idx@.len() == n,
                r@ == idx@.take(q as int),
                forall|w: int| 0 <= w < idx@.len() ==> idx@[w] < n,
            decreases count - q,
        {
            let e = idx[q];
            r.push(e);
            proof {
                assert(r@ =~= idx@.take(q as int + 1));
            }
            q = q + 1;
        }
        proof {
            assert(r@.no_duplicates());
        }
        r
    }
}

/// Determinism end to end: two call contexts whose components agree derive
/// the same seed, and a generator keyed by that seed produces the same raw
/// word at every stream position, so a fixed entropy record always
/// reproduces the same sequence of draws.
pub proof fn lemma_draws_deterministic(c1: CallContext, c2: CallContext, i: nat)
    requires
        c1.random_seed@ == c2.random_seed@,
        c1.current_account@ == c2.current_account@,
        c1.predecessor_account@ == c2.predecessor_account@,
        c1.block_timestamp == c2.block_timestamp,
        c1.prepaid_gas == c2.prepaid_gas,
    ensures
        seed_of_context(c1) == seed_of_context(c2),
        stream_u32(seed_of_context(c1), i) == stream_u32(seed_of_context(c2), i),
        stream_u64(seed_of_context(c1), i) == stream_u64(seed_of_context(c2), i),
{
    crate::entropy::lemma_seed_deterministic(c1, c2);
}

/// The sampling capability over a seeded generator: convenience draws built
/// atop bounded sampling. The contracts are stated over the implementor's
/// abstract stream key and cursor, so every draw is pinned to the stream and
/// reproducible from the seed.
pub trait Rng: Sized {
    /// The key of the stream the implementor draws from.
    spec fn gen_key(&self) -> Seq<u8>;

    /// How many 32-bit stream words the implementor has consumed.
    spec fn gen_cursor(&self) -> nat;

    /// A fair coin: the lowest bit of one raw 64-bit draw, so each side has
    /// probability one half under a uniform stream.
    fn flip_coin(&mut self) -> (r: bool)
        ensures
            r == (stream_u64(old(self).gen_key(), old(self).gen_cursor()) & 1 == 1),
            final(self).gen_key() == old(self).gen_key(),
            final(self).gen_cursor() == old(self).gen_cursor() + 2,
    ;

    /// A die roll in `[1, sides]`. A zero-sided die is meaningless but not
    /// catastrophic: the call returns the sentinel 0 and leaves the stream
    /// untouched.
    fn roll_die(&mut self, sides: u8) -> (r: u8)
        ensures
            sides == 0 ==> r == 0 && final(self).gen_key() == old(self).gen_key()
                && final(self).gen_cursor() == old(self).gen_cursor(),
            sides > 0 ==> r == range_sample64(
                stream_u64(old(self).gen_key(), old(self).gen_cursor()),
                1,
                sides as int + 1,
            ) as u8
                && 1 <= r <= sides
                && final(self).gen_key() == old(self).gen_key()
                && final(self).gen_cursor() == old(self).gen_cursor() + 2,
    ;

    /// A percentage in `[0, 100]`, both bounds inclusive.
    fn percentage(&mut self) -> (r: u8)
        ensures
            r == range_sample64(
                stream_u64(old(self).gen_key(), old(self).gen_cursor()),
                0,
                101,
            ) as u8,
            r <= 100,
            final(self).gen_key() == old(self).gen_key(),
            final(self).gen_cursor() == old(self).gen_cursor() + 2,
    ;

    /// Without-replacement sampling: `min(count, population)` elements, no
    /// population position drawn twice. A count inside the population takes
    /// the first `count` elements of the shuffled population; a count
    /// beyond it asks for everything, so the whole population comes back in
    /// its given order and no draw is spent reordering it — a deliberate
    /// asymmetry, stated here so callers can rely on either side of it.
    /// Drawing exactly the whole population yields a permutation of it.
    fn sample_multiple<T: Copy>(&mut self, items: &[T], count: usize) -> (r: Vec<T>)
        ensures
            count > items@.len() ==> r@ == items@ && final(self).gen_key() == old(self).gen_key()
                && final(self).gen_cursor() == old(self).gen_cursor(),
            count <= items@.len() ==> r@ == fy_full(
                items@,
                old(self).gen_key(),
                old(self).gen_cursor(),
            ).take(count as int)
                && r@.to_multiset().subset_of(items@.to_multiset())
                && final(self).gen_key() == old(self).gen_key()
                && final(self).gen_cursor() == old(self).gen_cursor() + shuffle_words(
                items@.len(),
            ),
            count == items@.len() ==> r@.to_multiset() == items@.to_multiset(),
            r@.len() == if count <= items@.len() {
                count as int
            } else {
                items@.len() as int
            },
    ;
}

impl Rng for SecureRng {
    open spec fn gen_key(&self) -> Seq<u8> {
        self.key()
    }

    open spec fn gen_cursor(&self) -> nat {
        self.cursor()
    }

    fn flip_coin(&mut self) -> (r: bool) {
        self.bool()
    }

    fn roll_die(&mut self, sides: u8) -> (r: u8) {
        if sides == 0 {
            return 0;
        }
        let raw = self.next_u64();
        let off = widen_u64(raw, sides as u64);
        1 + off as u8
    }

    fn percentage(&mut self) -> (r: u8) {
        let raw = self.next_u64();
        let off = widen_u64(raw, 101);
        off as u8
    }

    fn sample_multiple<T: Copy>(&mut self, items: &[T], count: usize) -> (r: Vec<T>) {
        let n = items.len();
        if count > n {
            let mut all: Vec<T> = Vec::new();
            let mut k: usize = 0;
            while k < n
                invariant
                    k <= n,
                    items@.len() == n,
                    all@ == items@.take(k as int),
                decreases n - k,
            {
                let e = *vstd::slice::slice_index_get(items, k);
                all.push(e);
                proof {
                    assert(all@ =~= items@.take(k as int + 1));
                }
                k = k + 1;
            }
            proof {
                assert(all@ =~= items@);
            }
            return all;
        }
        let ghost key = self.key();
        let ghost pos = self.cursor();
        let idx = self.sample_indices(n, count);
        let mut r: Vec<T> = Vec::new();
        let mut q: usize = 0;
        while q < count
            invariant
                q <= count,
                idx@.len() == count,
                items@.len() == n,
                forall|w: int| 0 <= w < idx@.len() ==> idx@[w] < n,
                r@ == gather(items@, idx@).take(q as int),
            decreases count - q,
        {
            let i = idx[q];
            let e = *vstd::slice::slice_index_get(items, i);
            r.push(e);
            proof {
                assert(r@ =~= gather(items@, idx@).take(q as int + 1));
            }
            q = q + 1;
        }
        proof {
            assert(r@ =~= gather(items@, idx@));
            lemma_gather_sampled(items@, key, pos, count as int);
            lemma_shuffle_is_permutation(items@, key, pos);
            lemma_take_multiset_subset(fy_full(items@, key, pos), count as int);
            if count == n {
                assert(fy_full(items@, key, pos).take(count as int) =~= fy_full(
                    items@,
                    key,
                    pos,
                ));
            }
        }
        r
    }
}

} // verus!
