use vstd::prelude::*;
use crate::stream::stream_u64;

verus! {

/// The widening map from one raw 64-bit draw onto `[0, span)`: the high half
/// of the 128-bit product. Unlike a naive remainder it distributes the
/// generator's output space evenly over the span, up to the unavoidable
/// rounding of `2^64 / span`, so no residue class is favoured.
pub open spec fn widen64(x: u64, span: u64) -> int {
    (x * span) / 0x1_0000_0000_0000_0000
}

/// One bounded draw: the raw word mapped onto `[low, high)`.
pub open spec fn range_sample64(raw: u64, low: int, high: int) -> int {
    low + widen64(raw, (high - low) as u64)
}

/// The widening map lands strictly inside the span.
pub proof fn lemma_widen64_bound(x: u64, span: u64)
    requires
        1 <= span,
    ensures
        0 <= widen64(x, span) < span,
{
    let d: int = 0x1_0000_0000_0000_0000;
    vstd::arithmetic::mul::lemma_mul_nonnegative(x as int, span as int);
    vstd::arithmetic::div_mod::lemma_div_is_ordered(0, x as int * span as int, d);
    vstd::arithmetic::mul::lemma_mul_upper_bound(x as int, d - 1, span as int, span as int);
    assert((d - 1) * (span as int) == (span as int - 1) * d + (d - span as int));
    vstd::arithmetic::div_mod::lemma_fundamental_div_mod_converse(
        (d - 1) * (span as int),
        d,
        span as int - 1,
        d - span as int,
    );
    vstd::arithmetic::div_mod::lemma_div_is_ordered(
        x as int * span as int,
        (d - 1) * (span as int),
        d,
    );
}

/// Maps one raw 64-bit draw onto `[0, span)` by widening multiplication.
pub fn widen_u64(x: u64, span: u64) -> (r: u64)
    requires
        1 <= span,
    ensures
        r == widen64(x, span),
        r < span,
{
    proof {
        lemma_widen64_bound(x, span);
        vstd::arithmetic::mul::lemma_mul_upper_bound(
            x as int,
            u64::MAX as int,
            span as int,
            u64::MAX as int,
        );
    }
    let wide: u128 = (x as u128) * (span as u128);
    (wide / 0x1_0000_0000_0000_0000u128) as u64
}

/// Two positions of a sequence exchanged.
pub open spec fn swap_seq<T>(s: Seq<T>, i: int, j: int) -> Seq<T> {
    s.update(i, s[j]).update(j, s[i])
}

/// The Fisher-Yates walk from position `i` down to 1: at each position the
/// element is exchanged with the one at a bounded draw from `[0, i + 1)`,
/// the draws coming from consecutive 64-bit reads of the stream keyed by
/// `key` starting at word position `pos`.
pub open spec fn fy_rec<T>(s: Seq<T>, key: Seq<u8>, pos: nat, i: nat) -> Seq<T>
    decreases i,
{
    if i == 0 || i >= s.len() {
        s
    } else {
        let j = widen64(stream_u64(key, pos), (i + 1) as u64);
        fy_rec(swap_seq(s, i as int, j), key, pos + 2, (i - 1) as nat)
    }
}

/// A whole shuffle of `s` by the stream keyed by `key` from word position
/// `pos`.
pub open spec fn fy_full<T>(s: Seq<T>, key: Seq<u8>, pos: nat) -> Seq<T> {
    if s.len() == 0 {
        s
    } else {
        fy_rec(s, key, pos, (s.len() - 1) as nat)
    }
}

/// How many 32-bit stream words a shuffle of `n` elements consumes: one
/// 64-bit draw for every position from the last down to 1.
pub open spec fn shuffle_words(n: nat) -> nat {
    if n == 0 {
        0
    } else {
        (2 * (n - 1)) as nat
    }
}

/// Exchanging two positions keeps the length and the multiset of elements.
pub proof fn lemma_swap_multiset<T>(s: Seq<T>, i: int, j: int)
    requires
        0 <= i < s.len(),
        0 <= j < s.len(),
    ensures
        swap_seq(s, i, j).len() == s.len(),
        swap_seq(s, i, j).to_multiset() == s.to_multiset(),
{
    broadcast use vstd::multiset::group_multiset_axioms;
    broadcast use vstd::seq_lib::group_to_multiset_ensures;
    broadcast use vstd::seq_lib::to_multiset_update;

    if i == j {
        assert(swap_seq(s, i, j) =~= s);
    } else {
        let m = s.to_multiset();
        let s1 = s.update(i, s[j]);
        assert(s.contains(s[i]));
        assert(s1.contains(s1[i]));
        assert(s1.to_multiset() == m.insert(s[j]).remove(s[i]));
        assert(s1[j] == s[j]);
        assert(swap_seq(s, i, j).to_multiset() == s1.to_multiset().insert(s[i]).remove(s1[j]));
        assert(m.count(s[i]) >= 1);
        assert(m.insert(s[j]).count(s[i]) >= 1);
        assert(swap_seq(s, i, j).to_multiset() =~= m);
    }
}

/// The Fisher-Yates walk is a permutation: it keeps the length and the
/// multiset of elements of the sequence it reorders.
pub proof fn lemma_fy_rec_permutes<T>(s: Seq<T>, key: Seq<u8>, pos: nat, i: nat)
    requires
        s.len() <= 0xffff_ffff_ffff_ffff,
    ensures
        fy_rec(s, key, pos, i).len() == s.len(),
        fy_rec(s, key, pos, i).to_multiset() == s.to_multiset(),
    decreases i,
{
    if i == 0 || i >= s.len() {
    } else {
        let raw = stream_u64(key, pos);
        lemma_widen64_bound(raw, (i + 1) as u64);
        let j = widen64(raw, (i + 1) as u64);
        lemma_swap_multiset(s, i as int, j);
        lemma_fy_rec_permutes(swap_seq(s, i as int, j), key, pos + 2, (i - 1) as nat);
    }
}

/// A shuffled sequence is a permutation of its input: identical length,
/// identical multiset of elements.
pub proof fn lemma_shuffle_is_permutation<T>(s: Seq<T>, key: Seq<u8>, pos: nat)
    requires
        s.len() <= 0xffff_ffff_ffff_ffff,
    ensures
        fy_full(s, key, pos).len() == s.len(),
        fy_full(s, key, pos).to_multiset() == s.to_multiset(),
{
    if s.len() == 0 {
    } else {
        lemma_fy_rec_permutes(s, key, pos, (s.len() - 1) as nat);
    }
}

/// The identity index sequence `0, 1, ..., n - 1`.
pub open spec fn id_seq(n: nat) -> Seq<usize> {
    Seq::new(n, |k: int| k as usize)
}

/// The position a single choice from `len` elements picks: one bounded draw
/// over `[0, len)`.
pub open spec fn choice_index(key: Seq<u8>, pos: nat, len: nat) -> int {
    range_sample64(stream_u64(key, pos), 0, len as int)
}

/// The index order of a without-replacement sample: the identity indices
/// shuffled by the stream, cut to the first `count`.
pub open spec fn sampled_indices(key: Seq<u8>, pos: nat, n: nat, count: int) -> Seq<usize> {
    fy_full(id_seq(n), key, pos).take(count)
}

/// `items` read through an index sequence, in the order the indices give.
pub open spec fn gather<T>(items: Seq<T>, idx: Seq<usize>) -> Seq<T> {
    Seq::new(idx.len(), |q: int| items[idx[q] as int])
}

/// A permutation of a duplicate-free sequence is duplicate-free.
pub proof fn lemma_permutation_no_duplicates<T>(s: Seq<T>, t: Seq<T>)
    requires
        s.no_duplicates(),
        t.to_multiset() == s.to_multiset(),
    ensures
        t.no_duplicates(),
{
    s.lemma_multiset_has_no_duplicates();
    t.lemma_multiset_has_no_duplicates_conv();
}

/// Reading through exchanged indices is exchanging the read elements.
pub proof fn lemma_gather_swap<T>(items: Seq<T>, idx: Seq<usize>, i: int, j: int)
    requires
        0 <= i < idx.len(),
        0 <= j < idx.len(),
    ensures
        gather(items, swap_seq(idx, i, j)) == swap_seq(gather(items, idx), i, j),
{
    assert(gather(items, swap_seq(idx, i, j)) =~= swap_seq(gather(items, idx), i, j));
}

/// The Fisher-Yates walk commutes with reading through indices: shuffling an
/// index sequence and then gathering gives the gathered elements shuffled by
/// the very same draws.
pub proof fn lemma_gather_fy_rec<T>(items: Seq<T>, idx: Seq<usize>, key: Seq<u8>, pos: nat, i: nat)
    requires
        idx.len() <= 0xffff_ffff_ffff_ffff,
    ensures
        gather(items, fy_rec(idx, key, pos, i)) == fy_rec(gather(items, idx), key, pos, i),
    decreases i,
{
    if i == 0 || i >= idx.len() {
    } else {
        let raw = stream_u64(key, pos);
        lemma_widen64_bound(raw, (i + 1) as u64);
        let j = widen64(raw, (i + 1) as u64);
        lemma_gather_swap(items, idx, i as int, j);
        lemma_gather_fy_rec(items, swap_seq(idx, i as int, j), key, pos + 2, (i - 1) as nat);
    }
}

/// A without-replacement sample read through its index choice is a prefix of
/// the directly shuffled population.
pub proof fn lemma_gather_sampled<T>(items: Seq<T>, key: Seq<u8>, pos: nat, count: int)
    requires
        items.len() <= usize::MAX,
        0 <= count <= items.len(),
    ensures
        gather(items, sampled_indices(key, pos, items.len(), count)) == fy_full(
            items,
            key,
            pos,
        ).take(count),
{
    let n = items.len();
    let id = id_seq(n);
    assert(gather(items, id) =~= items);
    if n == 0 {
        assert(gather(items, sampled_indices(key, pos, n, count)) =~= fy_full(
            items,
            key,
            pos,
        ).take(count));
    } else {
        lemma_gather_fy_rec(items, id, key, pos, (n - 1) as nat);
        lemma_fy_rec_permutes(id, key, pos, (n - 1) as nat);
        assert(gather(items, fy_full(id, key, pos).take(count)) =~= gather(
            items,
            fy_full(id, key, pos),
        ).take(count));
    }
}

/// A prefix of a sequence holds no more of any element than the whole.
pub proof fn lemma_take_multiset_subset<T>(s: Seq<T>, count: int)
    requires
        0 <= count <= s.len(),
    ensures
        s.take(count).to_multiset().subset_of(s.to_multiset()),
{
    broadcast use vstd::multiset::group_multiset_axioms;

    assert(s =~= s.take(count) + s.skip(count));
    vstd::seq_lib::lemma_multiset_commutative(s.take(count), s.skip(count));
}

} // verus!
