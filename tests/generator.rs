use dotnet35_rand_rs::{DotNet35Const, DotNet35Random};

/// The unit-interval value of a raw sample under the given modulus.
fn unit(raw: i32, mbig: i32) -> f64 {
    raw as f64 * (1.0 / mbig as f64)
}

#[test]
fn create() {
    let mut rand = DotNet35Random::new(0);
    assert_eq!(rand.next(), 1976681210);
    assert_eq!(rand.next(), 551155468);
}

#[test]
fn verify() {
    let mut rand = DotNet35Random::new(1919810);
    assert_eq!(rand.next(), 429045588);
    assert_eq!(rand.next(), 1732108734);
    assert_eq!(rand.next(), 970222201);
    assert_eq!(rand.next(), 369077841);
    let mbig = rand.consts.mbig;
    assert_eq!(unit(rand.next(), mbig), 0.11859490215712921);
    assert_eq!(rand.next(), 298877408);
}

#[test]
fn create_now() {
    let mut rand = DotNet35Random::new_now();
    let mbig = rand.consts.mbig;
    for _ in 0..100 {
        let below = (unit(rand.next(), mbig) * 1000 as f64) as i32;
        assert!(below < 1000);
        let next = (unit(rand.next(), mbig) * (2000i64 - 1000i64) as f64) as i32 + 1000;
        assert!((1000..2000).contains(&next));
    }
}

#[test]
fn default_constants() {
    let c = DotNet35Const::new_default();
    assert_eq!(c.mz, 0);
    assert_eq!(c.mbig, i32::MAX);
    assert_eq!(c.mseed, 161803398);
    assert_eq!(c.mseed, DotNet35Const::DEFAULT_MSEED);
    assert_eq!(DotNet35Const::default(), c);
    assert_eq!(DotNet35Const::new(0, i32::MAX, 161803398), c);
}

#[test]
fn constants_kept_verbatim() {
    let c = DotNet35Const::new(-7, 5, 3);
    assert_eq!((c.mz, c.mbig, c.mseed), (-7, 5, 3));
}

#[test]
fn new_uses_default_constants() {
    let a = DotNet35Random::new(42);
    let b = DotNet35Random::new_with_const(42, DotNet35Const::new_default());
    assert_eq!(a, b);
    assert_eq!(a.inext, 0);
    assert_eq!(a.inextp, 31);
    assert_eq!(a.seed, 42);
    assert_eq!(a.consts, DotNet35Const::new_default());
}

#[test]
fn same_seed_same_stream() {
    for seed in [0, 1, -1, 1919810, i32::MAX, i32::MIN] {
        let mut a = DotNet35Random::new(seed);
        let mut b = DotNet35Random::new(seed);
        for _ in 0..500 {
            assert_eq!(a.next(), b.next());
        }
        assert_eq!(a, b);
    }
}

#[test]
fn sign_of_seed_is_ignored() {
    let mut a = DotNet35Random::new(12345);
    let mut b = DotNet35Random::new(-12345);
    assert_eq!(a.seed_array, b.seed_array);
    for _ in 0..100 {
        assert_eq!(a.next(), b.next());
    }
}

#[test]
fn minimum_seed_subtracts_the_modulus() {
    let a = DotNet35Random::new(i32::MIN);
    let b = DotNet35Random::new(i32::MAX);
    assert_eq!(a.seed_array, b.seed_array);
    assert_eq!(a.seed, i32::MIN);
}

#[test]
fn raw_samples_stay_in_range() {
    for seed in [0, 7, -99, 1919810, i32::MAX, i32::MIN] {
        let mut rand = DotNet35Random::new(seed);
        for _ in 0..2000 {
            let x = rand.next();
            assert!((0..i32::MAX).contains(&x));
        }
        assert!(rand.seed_array[1..].iter().all(|&s| (0..i32::MAX).contains(&s)));
    }
}

#[test]
fn cursors_wrap_to_slot_one() {
    let mut rand = DotNet35Random::new(3);
    for _ in 0..24 {
        rand.internal_sample();
    }
    assert_eq!((rand.inext, rand.inextp), (24, 55));
    rand.internal_sample();
    assert_eq!((rand.inext, rand.inextp), (25, 1));
    for _ in 0..30 {
        rand.internal_sample();
    }
    assert_eq!((rand.inext, rand.inextp), (55, 31));
    rand.internal_sample();
    assert_eq!((rand.inext, rand.inextp), (1, 32));
}

#[test]
fn sample_is_stored_in_its_slot() {
    let mut rand = DotNet35Random::new(0);
    let before = rand;
    let x = rand.internal_sample();
    assert_eq!(rand.seed_array[1], x);
    assert_eq!(x, 1976681210);
    assert_eq!(
        x,
        before.seed_array[1].wrapping_sub(before.seed_array[32]).rem_euclid(i32::MAX)
    );
    for k in 2..56 {
        assert_eq!(rand.seed_array[k], before.seed_array[k]);
    }
}

#[test]
fn raw_views_agree() {
    let mut a = DotNet35Random::new(77);
    let mut b = a;
    let mut c = a;
    for _ in 0..50 {
        let x = a.next();
        assert_eq!(b.next_i32(), x);
        assert_eq!(c.next_u32(), x as u32);
    }
}

#[test]
fn empty_fill_draws_nothing() {
    let mut rand = DotNet35Random::new(5);
    let before = rand;
    let mut buffer: [u8; 0] = [];
    rand.next_bytes(&mut buffer);
    assert_eq!(rand, before);
    assert!(rand.next_u8_vec(0).is_empty());
    assert_eq!(rand, before);
}

#[test]
fn fill_takes_one_draw_per_byte() {
    let mut rand = DotNet35Random::new(1919810);
    let mut reference = rand;
    let mut buffer = [0xAAu8; 37];
    rand.next_bytes(&mut buffer);
    for byte in buffer {
        assert_eq!(byte, (reference.next() % 256) as u8);
    }
    assert_eq!(rand, reference);
}

#[test]
fn fill_bytes_of_known_stream() {
    let mut rand = DotNet35Random::new(1919810);
    let mut buffer = [0u8; 4];
    rand.next_bytes(&mut buffer);
    assert_eq!(
        buffer,
        [
            (429045588 % 256) as u8,
            (1732108734 % 256) as u8,
            (970222201 % 256) as u8,
            (369077841 % 256) as u8
        ]
    );
}

#[test]
fn byte_vec_matches_fill() {
    let mut a = DotNet35Random::new(31337);
    let mut b = a;
    let v = a.next_u8_vec(100);
    let mut buffer = [0u8; 100];
    b.next_bytes(&mut buffer);
    assert_eq!(v.as_slice(), &buffer[..]);
    assert_eq!(a, b);
}

#[test]
fn large_range_numerator_from_two_draws() {
    let mut rand = DotNet35Random::new(0);
    let mut reference = rand;
    for _ in 0..200 {
        let first = reference.next() as i64;
        let second = reference.next();
        let signed = if second % 2 == 0 { -first } else { first };
        let n = rand.large_range_numerator();
        assert_eq!(n, signed + (i32::MAX as i64 - 1));
        assert!((0..2 * i32::MAX as i64 - 1).contains(&n));
    }
    assert_eq!(rand, reference);
}

#[test]
fn large_range_numerator_known_value() {
    let mut rand = DotNet35Random::new(0);
    // 1976681210, then 551155468, which is even: the first is negated.
    assert_eq!(rand.large_range_numerator(), -1976681210 + 2147483646);
}

#[test]
fn custom_constants_change_the_stream() {
    let mut a = DotNet35Random::new_with_const(0, DotNet35Const::new(0, i32::MAX, 12345));
    let mut b = DotNet35Random::new(0);
    assert_ne!(a.seed_array, b.seed_array);
    assert_ne!(a.next(), b.next());
}

#[test]
fn clock_reading_gives_low_32_bits() {
    assert_eq!(DotNet35Random::from_clock_millis(Some(0)), DotNet35Random::new(0));
    assert_eq!(DotNet35Random::from_clock_millis(None), DotNet35Random::new(0));
    assert_eq!(
        DotNet35Random::from_clock_millis(Some((1u128 << 32) + 5)),
        DotNet35Random::new(5)
    );
    assert_eq!(
        DotNet35Random::from_clock_millis(Some(0xFFFF_FFFF)),
        DotNet35Random::new(-1)
    );
    assert_eq!(
        DotNet35Random::from_clock_millis(Some(0x8000_0000)),
        DotNet35Random::new(i32::MIN)
    );
    let ms: u128 = 1_760_000_000_123;
    let r = DotNet35Random::from_clock_millis(Some(ms));
    assert_eq!(r.seed, ms as i32);
    assert_eq!(r, DotNet35Random::new(ms as i32));
}

#[test]
fn seeding_leaves_slots_in_range() {
    let mut seeds: Vec<i32> = (0..65536u32).map(|k| (k << 16 | (k * 40503) & 0xFFFF) as i32).collect();
    seeds.extend([0, 1, -1, 161803398, -161803398, i32::MAX, i32::MIN, i32::MIN + 1]);
    for seed in seeds {
        let rand = DotNet35Random::new(seed);
        assert!(
            rand.seed_array[1..].iter().all(|&s| (0..i32::MAX).contains(&s)),
            "seed {}",
            seed
        );
    }
}
