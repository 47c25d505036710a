//! Counting helpers shared by the buffered effects: power-of-two buffer
//! sizes and the wrap-around counters that pace sample-and-hold and
//! analysis hops.

use vstd::prelude::*;

verus! {

/// `n` is a power of two (1, 2, 4, ...).
pub open spec fn is_pow2(n: int) -> bool
    decreases n,
{
    if n <= 0 {
        false
    } else if n == 1 {
        true
    } else {
        n % 2 == 0 && is_pow2(n / 2)
    }
}

/// The smallest power of two that is at least `n` (1 for `n == 0`).
pub fn next_power_of_two(n: usize) -> (p: usize)
    requires
        n <= usize::MAX / 2 + 1,
    ensures
        is_pow2(p as int),
        p >= n,
        p == 1 || p / 2 < n,
{
    let mut p: usize = 1;
    while p < n
        invariant
            n <= usize::MAX / 2 + 1,
            is_pow2(p as int),
            p == 1 || p / 2 < n,
            1 <= p,
        decreases 2 * n - p,
    {
        assert(is_pow2((p * 2) as int)) by {
            assert((p * 2) as int / 2 == p as int);
        }
        p = p * 2;
    }
    p
}

/// One step of a counter that runs 0, 1, ..., `period - 1` and wraps to 0
/// once it would reach `period`.
pub open spec fn wrap_step(c: int, period: int) -> int {
    if c + 1 >= period {
        0
    } else {
        c + 1
    }
}

/// The counter after `n` steps from `c`, with a fixed period.
pub open spec fn wrap_iter(c: int, period: int, n: nat) -> int
    decreases n,
{
    if n == 0 {
        c
    } else {
        wrap_step(wrap_iter(c, period, (n - 1) as nat), period)
    }
}

/// Started at 0, the counter after `n` steps is `n` modulo the period.
pub proof fn lemma_wrap_iter_from_zero(period: int, n: nat)
    requires
        period >= 1,
    ensures
        wrap_iter(0, period, n) == (n as int) % period,
    decreases n,
{
    if n > 0 {
        lemma_wrap_iter_from_zero(period, (n - 1) as nat);
        let prev = (n - 1) as int;
        let m = n as int;
        vstd::arithmetic::div_mod::lemma_fundamental_div_mod(prev, period);
        vstd::arithmetic::div_mod::lemma_mod_pos_bound(prev, period);
        let q = prev / period;
        let r = prev % period;
        vstd::arithmetic::mul::lemma_mul_is_commutative(period, q);
        assert(wrap_iter(0, period, n) == wrap_step(r, period));
        if r + 1 >= period {
            vstd::arithmetic::mul::lemma_mul_is_distributive_add_other_way(period, q, 1);
            vstd::arithmetic::div_mod::lemma_fundamental_div_mod_converse(m, period, q + 1, 0);
            assert(m % period == 0);
        } else {
            vstd::arithmetic::div_mod::lemma_fundamental_div_mod_converse(m, period, q, r + 1);
            assert(m % period == r + 1);
        }
    } else {
        vstd::arithmetic::div_mod::lemma_small_mod(0, period as nat);
    }
}

} // verus!
