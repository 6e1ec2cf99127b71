//! Laws of the generator, proved over the model of [`crate::generator`].
use crate::consts::DotNet35Const;
use crate::generator::{advance, after, byte_draws, byte_of, draws, initial_view, large_numerator_of, step, DotNet35Random, GeneratorView};
use vstd::prelude::*;

verus! {

/// Every slot that a cursor can reach (slots 1 to 55) holds a value in
/// `[0, modulus)`.
pub open spec fn slots_in_range(v: GeneratorView) -> bool {
    forall|k: int| 1 <= k < 56 ==> 0 <= #[trigger] v.slots[k] < v.consts.mbig
}

/// Determinism: two generators built from the same seed and the same
/// constants draw the same raw samples, draw for draw, and are in the same
/// state after any number of draws.
pub proof fn lemma_same_seed_same_stream(
    a: DotNet35Random,
    b: DotNet35Random,
    seed: i32,
    c: DotNet35Const,
    n: nat,
)
    requires
        a@ == initial_view(seed, c),
        b@ == initial_view(seed, c),
    ensures
        draws(a@, n) == draws(b@, n),
        after(a@, n) == after(b@, n),
{
}

/// Under the conventional modulus `i32::MAX`, a draw from slots in
/// `[0, modulus)` returns a value in `[0, modulus)` and leaves every slot in
/// that range.
pub proof fn lemma_step_in_range(v: GeneratorView)
    requires
        v.consts.mbig == i32::MAX,
        v.slots.len() == 56,
        slots_in_range(v),
    ensures
        0 <= step(v).0 < v.consts.mbig,
        step(v).1.consts == v.consts,
        step(v).1.slots.len() == 56,
        slots_in_range(step(v).1),
{
    let n = advance(v.inext);
    let p = advance(v.inextp);
    assert(1 <= n < 56 && 1 <= p < 56);
    let a = v.slots[n as int];
    let b = v.slots[p as int];
    assert(0 <= a < i32::MAX && 0 <= b < i32::MAX);
    assert(a.wrapping_sub(b) == a - b);
    let r = step(v).0;
    assert(0 <= r < i32::MAX);
    assert forall|k: int| 1 <= k < 56 implies 0 <= #[trigger] step(v).1.slots[k] < v.consts.mbig by {
        if k != n {
            assert(step(v).1.slots[k] == v.slots[k]);
        }
    }
}

/// Under the conventional modulus `i32::MAX`, every raw sample drawn from a
/// generator whose slots are in `[0, modulus)` lies in `[0, modulus)`, however
/// many draws are made.
pub proof fn lemma_draws_in_range(v: GeneratorView, n: nat)
    requires
        v.consts.mbig == i32::MAX,
        v.slots.len() == 56,
        slots_in_range(v),
    ensures
        draws(v, n).len() == n,
        forall|k: int| 0 <= k < n ==> 0 <= #[trigger] draws(v, n)[k] < v.consts.mbig,
        after(v, n).consts == v.consts,
        after(v, n).slots.len() == 56,
        slots_in_range(after(v, n)),
    decreases n,
{
    if n > 0 {
        let m = (n - 1) as nat;
        lemma_draws_in_range(v, m);
        lemma_step_in_range(after(v, m));
        assert forall|k: int| 0 <= k < n implies 0 <= #[trigger] draws(v, n)[k] < v.consts.mbig by {
            if k < m {
                assert(draws(v, n)[k] == draws(v, m)[k]);
            }
        }
    }
}

/// The large-range numerator made of a first sample in `[0, i32::MAX)` lies
/// in `[0, 2 * i32::MAX - 1)`, whatever the second sample.
pub proof fn lemma_large_numerator_in_range(a: i32, b: i32)
    requires
        0 <= a < i32::MAX,
    ensures
        0 <= large_numerator_of(a, b) < 2 * i32::MAX - 1,
{
}

/// Filling zero bytes draws nothing and leaves the generator as it was.
pub proof fn lemma_empty_fill(v: GeneratorView)
    ensures
        byte_draws(v, 0) == Seq::<u8>::empty(),
        after(v, 0) == v,
{
    assert(byte_draws(v, 0) =~= Seq::<u8>::empty());
}

/// Filling `n` bytes makes exactly `n` draws, one byte for each: the bytes
/// are those of the first `n` raw samples, and the generator ends as `n` raw
/// draws leave it.
pub proof fn lemma_fill_counts_draws(v: GeneratorView, n: nat)
    ensures
        byte_draws(v, n).len() == n,
        forall|k: int| 0 <= k < n ==> #[trigger] byte_draws(v, n)[k] == byte_of(draws(v, n)[k]),
        forall|k: int| 0 <= k < n ==> draws(v, n)[k] == #[trigger] step(after(v, k as nat)).0,
    decreases n,
{
    lemma_draws_len(v, n);
    if n > 0 {
        let m = (n - 1) as nat;
        lemma_fill_counts_draws(v, m);
        assert forall|k: int| 0 <= k < n implies draws(v, n)[k] == #[trigger] step(
            after(v, k as nat),
        ).0 by {
            if k < m {
                assert(draws(v, n)[k] == draws(v, m)[k]);
            }
        }
    }
}

/// `n` draws give `n` raw samples.
pub proof fn lemma_draws_len(v: GeneratorView, n: nat)
    ensures
        draws(v, n).len() == n,
    decreases n,
{
    if n > 0 {
        lemma_draws_len(v, (n - 1) as nat);
    }
}

} // verus!
