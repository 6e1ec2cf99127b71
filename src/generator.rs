//! The generator state machine: seeding and the raw sampling step, with the
//! mathematical model that their contracts are stated over.
use crate::clock::millis_since_epoch;
use crate::consts::DotNet35Const;
use vstd::prelude::*;

verus! {

broadcast use {vstd::array::group_array_axioms, vstd::slice::group_slice_axioms};

/// What the generator is, as a mathematical value.
pub struct GeneratorView {
    pub inext: usize,
    pub inextp: usize,
    pub slots: Seq<i32>,
    pub consts: DotNet35Const,
    pub seed: i32,
}

// ---------------------------------------------------------------------------
// Seeding
// ---------------------------------------------------------------------------

/// The amount subtracted from the seed base: the absolute value of the seed,
/// or the modulus for `i32::MIN`, whose absolute value does not fit.
pub open spec fn subtraction_of(seed: i32, c: DotNet35Const) -> i32 {
    if seed == i32::MIN {
        c.mbig
    } else if seed < 0 {
        (-seed) as i32
    } else {
        seed
    }
}

/// A scattered value below the lower bound is brought back by the modulus.
pub open spec fn correct_low(x: i32, c: DotNet35Const) -> i32 {
    if x < c.mz {
        x.wrapping_add(c.mbig)
    } else {
        x
    }
}

/// A mixed value below zero is brought back by the modulus.
pub open spec fn correct_negative(x: i32, c: DotNet35Const) -> i32 {
    if x < 0 {
        x.wrapping_add(c.mbig)
    } else {
        x
    }
}

/// The slot that step `i` of the scattering phase writes.
pub open spec fn scatter_index(i: int) -> int {
    (21 * i) % 55
}

/// The scattering phase after its steps `1..i`: the array, then `mj`, then `mk`.
pub open spec fn scattered(seed: i32, c: DotNet35Const, i: nat) -> (Seq<i32>, i32, i32)
    decreases i,
{
    if i <= 1 {
        let mj = c.mseed.wrapping_sub(subtraction_of(seed, c));
        (Seq::new(56, |k: int| 0i32).update(55, mj), mj, 1i32)
    } else {
        let (a, mj, mk) = scattered(seed, c, (i - 1) as nat);
        (a.update(scatter_index(i - 1), mk), mk, correct_low(mj.wrapping_sub(mk), c))
    }
}

/// The slot subtracted from slot `i` while mixing.
pub open spec fn mix_partner(i: int) -> int {
    1 + (i + 30) % 55
}

/// A mixing pass over the slots `1..i` of `a`, in increasing order.
pub open spec fn mix_prefix(a: Seq<i32>, c: DotNet35Const, i: nat) -> Seq<i32>
    decreases i,
{
    if i <= 1 {
        a
    } else {
        let b = mix_prefix(a, c, (i - 1) as nat);
        let k = i - 1;
        b.update(k, correct_negative(b[k].wrapping_sub(b[mix_partner(k)]), c))
    }
}

/// `a` after `passes` full mixing passes.
pub open spec fn mixed(a: Seq<i32>, c: DotNet35Const, passes: nat) -> Seq<i32>
    decreases passes,
{
    if passes == 0 {
        a
    } else {
        mix_prefix(mixed(a, c, (passes - 1) as nat), c, 56)
    }
}

/// The seed array that `seed` and `c` give: the scattering phase, then four
/// mixing passes.
pub open spec fn initial_slots(seed: i32, c: DotNet35Const) -> Seq<i32> {
    mixed(scattered(seed, c, 55).0, c, 4)
}

/// The generator as seeding leaves it.
pub open spec fn initial_view(seed: i32, c: DotNet35Const) -> GeneratorView {
    GeneratorView { inext: 0, inextp: 31, slots: initial_slots(seed, c), consts: c, seed }
}

// ---------------------------------------------------------------------------
// Sampling
// ---------------------------------------------------------------------------

/// The cursor after `i`: one slot on, back to slot 1 after slot 55.
pub open spec fn advance(i: usize) -> usize {
    if i >= 55 {
        1
    } else {
        (i + 1) as usize
    }
}

/// The raw sample drawn from slots holding `a` and `b`: their difference, kept
/// off the modulus, and a negative one corrected by `i32::MAX`.
pub open spec fn sample_of(a: i32, b: i32, mbig: i32) -> i32 {
    let d = a.wrapping_sub(b);
    let d = if d == mbig {
        d.wrapping_sub(1)
    } else {
        d
    };
    if d < 0 {
        d.wrapping_add(i32::MAX)
    } else {
        d
    }
}

/// One draw: the raw sample, and the generator after it.
pub open spec fn step(v: GeneratorView) -> (i32, GeneratorView) {
    let n = advance(v.inext);
    let p = advance(v.inextp);
    let r = sample_of(v.slots[n as int], v.slots[p as int], v.consts.mbig);
    (r, GeneratorView { inext: n, inextp: p, slots: v.slots.update(n as int, r), ..v })
}

/// The generator after `n` draws.
pub open spec fn after(v: GeneratorView, n: nat) -> GeneratorView
    decreases n,
{
    if n == 0 {
        v
    } else {
        step(after(v, (n - 1) as nat)).1
    }
}

/// The raw samples of the first `n` draws, in order.
pub open spec fn draws(v: GeneratorView, n: nat) -> Seq<i32>
    decreases n,
{
    if n == 0 {
        Seq::empty()
    } else {
        draws(v, (n - 1) as nat).push(step(after(v, (n - 1) as nat)).0)
    }
}

/// The byte made of a raw sample: the sample modulo 256.
pub open spec fn byte_of(x: i32) -> u8 {
    (x as int % 256) as u8
}

/// The bytes of the first `n` draws, in order.
pub open spec fn byte_draws(v: GeneratorView, n: nat) -> Seq<u8> {
    draws(v, n).map_values(|x: i32| byte_of(x))
}

/// The numerator of the large-range sample drawn from the raw samples `a`,
/// then `b`: `a`, negated when `b` is even, moved up by `i32::MAX - 1`.
pub open spec fn large_numerator_of(a: i32, b: i32) -> int {
    let signed = if b % 2 == 0 {
        -a
    } else {
        a as int
    };
    signed + (i32::MAX - 1)
}

/// The seed taken from a clock reading in milliseconds: its low 32 bits, read
/// as a signed integer, or 0 where there is no reading.
pub open spec fn tick_seed(ms: Option<u128>) -> i32 {
    match ms {
        Some(m) => {
            let low = m % 0x1_0000_0000;
            if low > i32::MAX {
                (low - 0x1_0000_0000) as i32
            } else {
                low as i32
            }
        },
        None => 0i32,
    }
}

// ---------------------------------------------------------------------------
// The generator
// ---------------------------------------------------------------------------

/// The state of one stream of the generator: 56 slots (slot 0 unused), two
/// cursors, the constants it was built with and the seed it was given.
#[derive(Clone, Copy, Debug, PartialEq, Eq, Hash)]
pub struct DotNet35Random {
    /// The slot that the last draw wrote (0 before the first draw).
    pub inext: usize,
    /// The slot that the last draw subtracted.
    pub inextp: usize,
    /// The seed array; slot 0 is never read.
    pub seed_array: [i32; 56],
    /// The constants the generator was built with.
    pub consts: DotNet35Const,
    /// The seed the generator was built with, kept for inspection only.
    pub seed: i32,
}

impl View for DotNet35Random {
    type V = GeneratorView;

    open spec fn view(&self) -> GeneratorView {
        GeneratorView {
            inext: self.inext,
            inextp: self.inextp,
            slots: self.seed_array@,
            consts: self.consts,
            seed: self.seed,
        }
    }
}

/// The low byte of a raw sample.
fn low_byte(x: i32) -> (r: u8)
    ensures
        r == byte_of(x),
{
    let shifted: i64 = x as i64 + 0x1_0000_0000;
    assert(shifted as int % 256 == x as int % 256);
    (shifted % 256) as u8
}

impl DotNet35Random {
    /// A generator seeded with `seed` and the conventional constants.
    pub fn new(seed: i32) -> (r: Self)
        ensures
            r@ == initial_view(seed, DotNet35Const::conventional()),
            r.consts.is_default(),
    {
        let consts = DotNet35Const::new_default();
        DotNet35Random::new_with_const(seed, consts)
    }

    /// A generator seeded with the clock's millisecond count, truncated to 32
    /// bits, and the conventional constants.
    pub fn new_now() -> (r: Self)
        ensures
            r@ == initial_view(r.seed, r.consts),
            r.consts.is_default(),
    {
        DotNet35Random::from_clock_millis(millis_since_epoch())
    }

    /// A generator seeded from a clock reading, the milliseconds since the
    /// Unix epoch or `None` before it, with the conventional constants: the
    /// seed is the low 32 bits of the reading, or 0 without one.
    pub fn from_clock_millis(ms: Option<u128>) -> (r: Self)
        ensures
            r@ == initial_view(tick_seed(ms), DotNet35Const::conventional()),
    {
        let tick_count: i32 = match ms {
            Some(m) => {
                let low: u128 = m % 0x1_0000_0000;
                if low > i32::MAX as u128 {
                    (low as i64 - 0x1_0000_0000) as i32
                } else {
                    low as i32
                }
            },
            None => 0,
        };
        DotNet35Random::new(tick_count)
    }

    /// A generator seeded with `seed` and the constants `consts`.
    pub fn new_with_const(seed: i32, consts: DotNet35Const) -> (r: Self)
        ensures
            r@ == initial_view(seed, consts),
    {
        let mut seed_array: [i32; 56] = [0i32; 56];
        let subtraction: i32 = if seed == i32::MIN {
            consts.mbig
        } else if seed < 0 {
            -seed
        } else {
            seed
        };
        let mut mj: i32 = consts.mseed.wrapping_sub(subtraction);
        seed_array[55] = mj;
        let mut mk: i32 = 1;
        assert(seed_array@ =~= scattered(seed, consts, 1).0);
        let mut i: usize = 1;
        while i < 55
            invariant
                1 <= i <= 55,
                seed_array@ == scattered(seed, consts, i as nat).0,
                mj == scattered(seed, consts, i as nat).1,
                mk == scattered(seed, consts, i as nat).2,
            decreases 55 - i,
        {
            let ii: usize = 21 * i % 55;
            seed_array[ii] = mk;
            mk = mj.wrapping_sub(mk);
            if mk < consts.mz {
                mk = mk.wrapping_add(consts.mbig);
            }
            mj = seed_array[ii];
            i += 1;
        }
        let ghost scattered_slots = seed_array@;
        let mut pass: usize = 1;
        while pass < 5
            invariant
                1 <= pass <= 5,
                seed_array@ == mixed(scattered_slots, consts, (pass - 1) as nat),
            decreases 5 - pass,
        {
            let ghost before = seed_array@;
            let mut i: usize = 1;
            while i < 56
                invariant
                    1 <= pass < 5,
                    1 <= i <= 56,
                    before == mixed(scattered_slots, consts, (pass - 1) as nat),
                    seed_array@ == mix_prefix(before, consts, i as nat),
                decreases 56 - i,
            {
                let v: i32 = seed_array[i].wrapping_sub(seed_array[1 + (i + 30) % 55]);
                seed_array[i] = if v < 0 {
                    v.wrapping_add(consts.mbig)
                } else {
                    v
                };
                i += 1;
            }
            pass += 1;
        }
        DotNet35Random { inext: 0, inextp: 31, seed_array, consts, seed }
    }

    /// Draws the next raw sample and advances the state.
    pub fn internal_sample(&mut self) -> (r: i32)
        ensures
            (r, final(self)@) == step(old(self)@),
    {
        let n: usize = if self.inext >= 55 {
            1
        } else {
            self.inext + 1
        };
        let p: usize = if self.inextp >= 55 {
            1
        } else {
            self.inextp + 1
        };
        let mut ret_val: i32 = self.seed_array[n].wrapping_sub(self.seed_array[p]);
        if ret_val == self.consts.mbig {
            ret_val = ret_val.wrapping_sub(1);
        }
        if ret_val < 0 {
            ret_val = ret_val.wrapping_add(i32::MAX);
        }
        self.seed_array[n] = ret_val;
        self.inext = n;
        self.inextp = p;
        ret_val
    }

    /// The next raw sample.
    pub fn next(&mut self) -> (r: i32)
        ensures
            (r, final(self)@) == step(old(self)@),
    {
        self.internal_sample()
    }

    /// The next raw sample.
    pub fn next_i32(&mut self) -> (r: i32)
        ensures
            (r, final(self)@) == step(old(self)@),
    {
        self.internal_sample()
    }

    /// The next raw sample, as an unsigned integer of the same bits.
    pub fn next_u32(&mut self) -> (r: u32)
        ensures
            r == step(old(self)@).0 as u32,
            final(self)@ == step(old(self)@).1,
    {
        self.internal_sample() as u32
    }

    /// Draws two raw samples and returns the numerator of the large-range
    /// sample: the first sample, negated when the second is even, plus
    /// `i32::MAX - 1`. Over samples in `[0, i32::MAX)` it lies in
    /// `[0, 2 * i32::MAX - 1)`; scaled by `1 / (2 * i32::MAX - 1)` it is the
    /// unit-interval value that ranges wider than `i32::MAX` are drawn with.
    pub fn large_range_numerator(&mut self) -> (r: i64)
        ensures
            r == large_numerator_of(step(old(self)@).0, step(step(old(self)@).1).0),
            final(self)@ == after(old(self)@, 2),
    {
        let ghost start = self@;
        let result: i32 = self.internal_sample();
        let negative: bool = self.internal_sample() % 2 == 0;
        assert(after(start, 0) == start);
        assert(after(start, 1) == step(start).1);
        assert(after(start, 2) == step(after(start, 1)).1);
        let signed: i64 = if negative {
            -(result as i64)
        } else {
            result as i64
        };
        signed + (i32::MAX as i64 - 1)
    }

    /// Fills `buffer` front to back with one byte per draw, each the raw
    /// sample modulo 256.
    pub fn next_bytes(&mut self, buffer: &mut [u8])
        ensures
            final(buffer)@ == byte_draws(old(self)@, old(buffer)@.len()),
            final(self)@ == after(old(self)@, old(buffer)@.len()),
    {
        let ghost start = self@;
        let ghost original = buffer@;
        let len: usize = buffer.len();
        let mut i: usize = 0;
        while i < len
            invariant
                0 <= i <= len,
                len == original.len(),
                buffer@.len() == len,
                self@ == after(start, i as nat),
                buffer@.take(i as int) == byte_draws(start, i as nat),
            decreases len - i,
        {
            let x: i32 = self.internal_sample();
            let ghost prev = buffer@;
            buffer[i] = low_byte(x);
            assert(buffer@.take(i + 1) =~= prev.take(i as int).push(byte_of(x)));
            assert(byte_draws(start, (i + 1) as nat) =~= byte_draws(start, i as nat).push(
                byte_of(x),
            ));
            i += 1;
        }
        assert(buffer@ =~= buffer@.take(len as int));
    }

    /// `len` bytes, one per draw, each the raw sample modulo 256.
    pub fn next_u8_vec(&mut self, len: usize) -> (r: Vec<u8>)
        ensures
            r@ == byte_draws(old(self)@, len as nat),
            final(self)@ == after(old(self)@, len as nat),
    {
        let ghost start = self@;
        let mut vec: Vec<u8> = Vec::with_capacity(len);
        let mut i: usize = 0;
        while i < len
            invariant
                0 <= i <= len,
                self@ == after(start, i as nat),
                vec@ == byte_draws(start, i as nat),
            decreases len - i,
        {
            let x: i32 = self.internal_sample();
            vec.push(low_byte(x));
            assert(vec@ =~= byte_draws(start, (i + 1) as nat));
            i += 1;
        }
        vec
    }
}

} // verus!
