//! Sizing of the evaluation domain.

use vstd::prelude::*;
use vstd::arithmetic::power2::*;

verus! {

/// `d` is `2^k` for some `k`.
pub open spec fn is_power_of_two(d: nat) -> bool {
    exists|k: nat| d == #[trigger] pow2(k)
}

/// The largest row count whose domain size still fits in a `usize`.
pub open spec fn max_rows() -> nat {
    (usize::MAX / 2 + 1) as nat
}

/// The domain size for `n` rows: the smallest power of two that is at least `n`.
/// For `n == 0` this is `1`.
pub open spec fn subgroup_size(n: nat) -> nat
    decreases n,
{
    if n <= 1 {
        1
    } else {
        2 * subgroup_size((n + 1) / 2)
    }
}

/// Of two powers of two, the smaller one is at most half the larger one.
proof fn lemma_power_of_two_gap(a: nat, b: nat)
    requires
        is_power_of_two(a),
        is_power_of_two(b),
        a < b,
    ensures
        2 * a <= b,
{
    let i = choose|k: nat| a == #[trigger] pow2(k);
    let j = choose|k: nat| b == #[trigger] pow2(k);
    if i >= j {
        if i > j {
            lemma_pow2_strictly_increases(j, i);
        }
    } else {
        lemma_pow2_unfold(i + 1);
        if i + 1 < j {
            lemma_pow2_strictly_increases(i + 1, j);
        }
    }
}

/// `subgroup_size(n)` is a power of two, is at least `n`, and no smaller power
/// of two is at least `n`.
pub proof fn lemma_subgroup_size_is_least(n: nat)
    ensures
        is_power_of_two(subgroup_size(n)),
        subgroup_size(n) >= n,
        subgroup_size(n) >= 1,
        n >= 1 ==> subgroup_size(n) < 2 * n,
        forall|e: nat| is_power_of_two(e) && e >= n ==> subgroup_size(n) <= e,
    decreases n,
{
    lemma2_to64();
    if n <= 1 {
        assert(1 == pow2(0));
        assert forall|e: nat| is_power_of_two(e) && e >= n implies 1 <= e by {
            let k = choose|k: nat| e == #[trigger] pow2(k);
            lemma_pow2_pos(k);
        }
    } else {
        let h = (n + 1) / 2;
        lemma_subgroup_size_is_least(h);
        let s = subgroup_size(h);
        let k = choose|k: nat| s == #[trigger] pow2(k);
        lemma_pow2_unfold(k + 1);
        assert(2 * s == pow2(k + 1));
        assert forall|e: nat| is_power_of_two(e) && e >= n implies 2 * s <= e by {
            let m = choose|m: nat| e == #[trigger] pow2(m);
            if m == 0 {
                assert(e == 1);
            } else {
                lemma_pow2_unfold(m);
                let half = pow2((m - 1) as nat);
                assert(e == 2 * half);
                assert(is_power_of_two(half));
                assert(half >= h);
            }
        }
    }
}

/// The domain size for a trace of `n` rows.
pub fn get_circuit_subgroup_size(n: usize) -> (d: usize)
    requires
        n <= max_rows(),
    ensures
        d == subgroup_size(n as nat),
        is_power_of_two(d as nat),
        d >= n,
        d >= 1,
        forall|e: nat| is_power_of_two(e) && e >= n ==> d <= e,
{
    let mut d: usize = 1;
    proof {
        lemma2_to64();
        assert(1 == pow2(0));
        assert forall|e: nat| is_power_of_two(e) && e >= n implies 1 <= e by {
            let k = choose|k: nat| e == #[trigger] pow2(k);
            lemma_pow2_pos(k);
        }
    }
    while d < n
        invariant
            n <= max_rows(),
            is_power_of_two(d as nat),
            d >= 1,
            forall|e: nat| is_power_of_two(e) && e >= n ==> d <= e,
        decreases 2 * n - d,
    {
        proof {
            let k = choose|k: nat| d as nat == #[trigger] pow2(k);
            lemma_pow2_unfold(k + 1);
            assert(2 * d == pow2(k + 1));
            assert forall|e: nat| is_power_of_two(e) && e >= n implies 2 * d <= e by {
                lemma_power_of_two_gap(d as nat, e);
            }
        }
        d = 2 * d;
    }
    proof {
        lemma_subgroup_size_is_least(n as nat);
    }
    d
}

} // verus!
