use secure_rng::entropy::{derive_context_seed, derive_seed, CallContext};
use secure_rng::errors::RngError;
use secure_rng::rng::{Rng, SecureRng};
use secure_rng::sample::widen_u64;

fn context() -> CallContext {
    CallContext {
        random_seed: [42; 32],
        current_account: b"alice.near".to_vec(),
        predecessor_account: b"bob.near".to_vec(),
        block_timestamp: 1000,
        prepaid_gas: 300_000_000_000_000,
    }
}

#[test]
fn determinism_of_draw_sequences() {
    let ctx = context();
    let mut rng1 = SecureRng::new(&ctx);
    let mut rng2 = SecureRng::new(&ctx);
    for _ in 0..100 {
        assert_eq!(rng1.next_u32(), rng2.next_u32());
        assert_eq!(rng1.next_u64(), rng2.next_u64());
        assert_eq!(rng1.bool(), rng2.bool());
        assert_eq!(rng1.u32(10, 1000).unwrap(), rng2.u32(10, 1000).unwrap());
        assert_eq!(rng1.i64(-50, 50).unwrap(), rng2.i64(-50, 50).unwrap());
        assert_eq!(rng1.roll_die(6), rng2.roll_die(6));
    }
}

#[test]
fn known_seed_vector_with_entropy() {
    let seed = derive_seed(&[42; 32], b"test-entropy");
    let expected: [u8; 32] = [
        5, 31, 92, 120, 230, 155, 143, 246, 214, 192, 50, 129, 221, 159, 139, 26, 159, 246, 108,
        255, 130, 229, 41, 206, 183, 31, 226, 153, 27, 246, 125, 206,
    ];
    assert_eq!(seed, expected);
}

#[test]
fn known_seed_vector_full_context() {
    let mut ctx = context();
    ctx.random_seed = [7; 32];
    let seed = derive_context_seed(&ctx);
    let expected: [u8; 32] = [
        247, 114, 81, 18, 56, 205, 165, 32, 136, 92, 170, 249, 19, 48, 111, 95, 60, 248, 22, 23,
        177, 250, 88, 9, 169, 29, 191, 222, 119, 108, 123, 28,
    ];
    assert_eq!(seed, expected);
}

#[test]
fn range_draws_land_inside_and_spread() {
    let ctx = context();
    let mut rng = SecureRng::new(&ctx);
    let mut counts = [0u32; 7];
    for _ in 0..10_000 {
        let v = rng.u32(10, 17).unwrap();
        assert!((10..17).contains(&v));
        counts[(v - 10) as usize] += 1;
    }
    // expected about 1429 per bucket; a uniform stream stays well inside
    // these generous bounds, while a naive biased mapping of a tiny span
    // would not show up here, so also check a coarse chi-square statistic
    let expected = 10_000.0 / 7.0;
    let chi2: f64 = counts
        .iter()
        .map(|&c| {
            let d = c as f64 - expected;
            d * d / expected
        })
        .sum();
    for &c in counts.iter() {
        assert!(c > 1000 && c < 2000, "bucket count {} out of bounds", c);
    }
    // 6 degrees of freedom: chi2 below 30 is far beyond the 0.999 quantile
    assert!(chi2 < 30.0, "chi-square {} too large", chi2);
}

#[test]
fn range_draws_other_widths() {
    let ctx = context();
    let mut rng = SecureRng::new(&ctx);
    for _ in 0..1000 {
        let a = rng.u8(1, 7).unwrap();
        assert!((1..7).contains(&a));
        let b = rng.u16(100, 200).unwrap();
        assert!((100..200).contains(&b));
        let c = rng.u64(0, 3).unwrap();
        assert!(c < 3);
        let d = rng.usize(0, 10).unwrap();
        assert!(d < 10);
        let e = rng.i32(-100, 100).unwrap();
        assert!((-100..100).contains(&e));
        let f = rng.i64(i64::MIN, i64::MAX).unwrap();
        assert!(f < i64::MAX);
    }
}

#[test]
fn boolean_frequency_is_fair() {
    let ctx = context();
    let mut rng = SecureRng::new(&ctx);
    let mut trues = 0u32;
    for _ in 0..10_000 {
        if rng.bool() {
            trues += 1;
        }
    }
    assert!(trues > 4500 && trues < 5500, "true count {}", trues);
}

#[test]
fn shuffle_is_a_permutation() {
    let ctx = context();
    let mut rng = SecureRng::new(&ctx);
    let original = vec![3, 1, 4, 1, 5, 9, 2, 6, 5, 3, 5];
    let mut shuffled = original.clone();
    rng.shuffle(&mut shuffled);
    assert_eq!(original.len(), shuffled.len());
    let mut a = original.clone();
    let mut b = shuffled.clone();
    a.sort();
    b.sort();
    assert_eq!(a, b);
    // a longer shuffle actually moves something
    let long: Vec<u32> = (0..100).collect();
    let mut moved = long.clone();
    rng.shuffle(&mut moved);
    assert_ne!(long, moved);
    let mut sorted = moved.clone();
    sorted.sort();
    assert_eq!(long, sorted);
}

#[test]
fn sampling_without_replacement_has_distinct_indices() {
    let ctx = context();
    let mut rng = SecureRng::new(&ctx);
    let idx = rng.sample_indices(10, 5);
    assert_eq!(idx.len(), 5);
    for (a, &x) in idx.iter().enumerate() {
        assert!(x < 10);
        for &y in idx.iter().skip(a + 1) {
            assert_ne!(x, y);
        }
    }
}

#[test]
fn sampling_length_is_min_of_count_and_population() {
    let ctx = context();
    let mut rng = SecureRng::new(&ctx);
    let items = vec![10, 20, 30, 40, 50];
    assert_eq!(rng.sample_multiple(&items, 2).len(), 2);
    assert_eq!(rng.sample_multiple(&items, 5).len(), 5);
    assert_eq!(rng.sample_multiple(&items, 9).len(), 5);
    // beyond the population the original order comes back
    assert_eq!(rng.sample_multiple(&items, 9), items);
    // exactly the population permutes it
    let mut full = rng.sample_multiple(&items, 5);
    full.sort();
    assert_eq!(full, items);
}

#[test]
fn edge_cases_die_choice_and_empty_range() {
    let ctx = context();
    let mut rng = SecureRng::new(&ctx);
    assert_eq!(rng.roll_die(0), 0);
    let empty: Vec<u8> = vec![];
    assert!(rng.choice(&empty).is_none());
    assert_eq!(rng.u8(5, 5), Err(RngError::InvalidRange));
    assert_eq!(rng.u32(7, 3), Err(RngError::InvalidRange));
    assert_eq!(rng.i64(0, 0), Err(RngError::InvalidRange));
    assert_eq!(rng.usize(1, 0), Err(RngError::InvalidRange));
    // the full spread of a die
    assert_eq!(rng.roll_die(1), 1);
    let r = rng.roll_die(255);
    assert!((1..=255).contains(&r));
}

#[test]
fn distinct_contexts_give_distinct_seeds() {
    let ctx1 = context();
    let mut ctx2 = context();
    ctx2.predecessor_account = b"carol.near".to_vec();
    assert_ne!(derive_context_seed(&ctx1), derive_context_seed(&ctx2));

    let mut ctx3 = context();
    ctx3.block_timestamp += 1;
    assert_ne!(derive_context_seed(&ctx1), derive_context_seed(&ctx3));

    let mut ctx4 = context();
    ctx4.prepaid_gas += 1;
    assert_ne!(derive_context_seed(&ctx1), derive_context_seed(&ctx4));
}

#[test]
fn chacha_known_answer_vectors() {
    // IETF draft-nir-cfrg-chacha20-poly1305 test vector: the first block of
    // the ChaCha20 stream under the all-zero key
    let mut rng = SecureRng::from_seed(&[0u8; 32]);
    let expected: [u32; 16] = [
        0xade0b876, 0x903df1a0, 0xe56a5d40, 0x28bd8653, 0xb819d2bd, 0x1aed8da0, 0xccef36a8,
        0xc70d778b, 0x7c5941da, 0x8d485751, 0x3fe02477, 0x374ad8b8, 0xf4b8436a, 0x1ca11815,
        0x69b687c3, 0x8665eeb2,
    ];
    for &e in expected.iter() {
        assert_eq!(rng.next_u32(), e);
    }

    let seed: [u8; 32] = [
        0, 0, 0, 0, 0, 0, 0, 0, 1, 0, 0, 0, 0, 0, 0, 0, 2, 0, 0, 0, 0, 0, 0, 0, 3, 0, 0, 0, 0, 0,
        0, 0,
    ];
    let mut rng2 = SecureRng::from_seed(&seed);
    assert_eq!(rng2.next_u32(), 137206642);
}

#[test]
fn fill_bytes_matches_the_word_stream() {
    // under the all-zero key the first stream word is 0xade0b876, whose
    // little-endian bytes open the raw keystream
    let mut rng = SecureRng::from_seed(&[0u8; 32]);
    let mut buf = vec![0u8; 8];
    rng.fill_bytes(&mut buf);
    assert_eq!(buf, vec![0x76, 0xb8, 0xe0, 0xad, 0xa0, 0xf1, 0x3d, 0x90]);
    // four bytes consume one word, so the next draw is the third word
    let mut rng2 = SecureRng::from_seed(&[0u8; 32]);
    let mut buf2 = vec![0u8; 4];
    rng2.fill_bytes(&mut buf2);
    assert_eq!(buf2, vec![0x76, 0xb8, 0xe0, 0xad]);
    assert_eq!(rng2.next_u32(), 0x903df1a0);
    // five bytes begin two words, so the draw after them is the third word
    let mut rng3 = SecureRng::from_seed(&[0u8; 32]);
    let mut buf3 = vec![0u8; 5];
    rng3.fill_bytes(&mut buf3);
    assert_eq!(rng3.next_u32(), 0xe56a5d40);

    let mut a = SecureRng::from_seed(&[5u8; 32]);
    let mut b = SecureRng::from_seed(&[5u8; 32]);
    let mut ba = vec![0u8; 33];
    let mut bb = vec![0u8; 33];
    a.fill_bytes(&mut ba);
    b.fill_bytes(&mut bb);
    assert_eq!(ba, bb);
    assert_ne!(ba, vec![0u8; 33]);
}

#[test]
fn widening_map_exact_values() {
    assert_eq!(widen_u64(0, 10), 0);
    assert_eq!(widen_u64(u64::MAX, 10), 9);
    assert_eq!(widen_u64(1u64 << 63, 10), 5);
    assert_eq!(widen_u64(u64::MAX, 1), 0);
}

#[test]
fn three_participants_end_to_end() {
    let mut ctx = context();
    ctx.random_seed = [9; 32];
    let participants = vec!["Alice", "Bob", "Charlie"];

    let mut rng = SecureRng::new(&ctx);
    let winner = rng.choice(&participants);
    assert!(winner.is_some());
    assert!(participants.contains(winner.unwrap()));

    let pair = rng.sample_multiple(&participants, 2);
    assert_eq!(pair.len(), 2);
    assert!(pair.iter().all(|p| participants.contains(p)));
    assert_ne!(pair[0], pair[1]);
}

#[test]
fn percentage_covers_inclusive_bounds() {
    let ctx = context();
    let mut rng = SecureRng::new(&ctx);
    let mut seen_low = false;
    let mut seen_high = false;
    for _ in 0..20_000 {
        let p = rng.percentage();
        assert!(p <= 100);
        if p == 0 {
            seen_low = true;
        }
        if p == 100 {
            seen_high = true;
        }
    }
    assert!(seen_low && seen_high);
}
