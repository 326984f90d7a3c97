//! Deterministic integer square root, the numeric primitive of the
//! quadratic-area bookkeeping.
//!
//! Every "area" figure in the ledger is a sum of values of [`isqrt`]; the
//! state must replay bit-for-bit across independent re-executions, so no
//! floating point is ever involved.

use vstd::arithmetic::div_mod::{
    lemma_div_by_multiple, lemma_div_by_self, lemma_div_is_ordered,
    lemma_div_is_ordered_by_denominator, lemma_fundamental_div_mod, lemma_mod_bound,
};
use vstd::arithmetic::mul::{lemma_mul_inequality, lemma_mul_is_commutative};
use vstd::prelude::*;

verus! {

/// Floor of the square root of `x`: the greatest `r` with `r * r <= x`.
pub open spec fn sqrt_floor(x: nat) -> nat
    decreases x,
{
    if x == 0 {
        0nat
    } else {
        let p = sqrt_floor((x - 1) as nat);
        if (p + 1) * (p + 1) <= x {
            p + 1
        } else {
            p
        }
    }
}

/// `sqrt_floor(x)` is exactly the floor of the square root: it squares to at
/// most `x`, and the next integer squares to more.
pub proof fn lemma_sqrt_floor_bounds(x: nat)
    ensures
        sqrt_floor(x) * sqrt_floor(x) <= x,
        x < (sqrt_floor(x) + 1) * (sqrt_floor(x) + 1),
    decreases x,
{
    if x > 0 {
        lemma_sqrt_floor_bounds((x - 1) as nat);
        let p = sqrt_floor((x - 1) as nat);
        if (p + 1) * (p + 1) <= x {
            // The induction hypothesis caps x at (p + 1)^2, which the next
            // square exceeds.
            assert(sqrt_floor(x) == p + 1);
            assert((p + 1) * (p + 1) < (p + 2) * (p + 2)) by (nonlinear_arith);
            assert(x < (sqrt_floor(x) + 1) * (sqrt_floor(x) + 1));
        } else {
            assert(sqrt_floor(x) == p);
            assert(sqrt_floor(x) * sqrt_floor(x) <= x);
        }
    } else {
        assert(sqrt_floor(x) == 0);
        assert(x < (sqrt_floor(x) + 1) * (sqrt_floor(x) + 1)) by (nonlinear_arith)
            requires
                x == 0,
                sqrt_floor(x) == 0,
        ;
    }
}

/// Any `r` within the square-root bounds is `sqrt_floor(x)`: the bounds pin
/// the value down.
pub proof fn lemma_sqrt_floor_unique(x: nat, r: nat)
    requires
        r * r <= x,
        x < (r + 1) * (r + 1),
    ensures
        r == sqrt_floor(x),
{
    lemma_sqrt_floor_bounds(x);
    let s = sqrt_floor(x);
    if r < s {
        assert((r + 1) * (r + 1) <= s * s) by (nonlinear_arith)
            requires
                r + 1 <= s,
        ;
    }
    if s < r {
        assert((s + 1) * (s + 1) <= r * r) by (nonlinear_arith)
            requires
                s + 1 <= r,
        ;
    }
}

/// The integer square root never decreases: `a <= b` implies
/// `sqrt_floor(a) <= sqrt_floor(b)`. Area deltas are therefore never
/// negative.
pub proof fn lemma_sqrt_floor_monotonic(a: nat, b: nat)
    requires
        a <= b,
    ensures
        sqrt_floor(a) <= sqrt_floor(b),
{
    lemma_sqrt_floor_bounds(a);
    lemma_sqrt_floor_bounds(b);
    let sa = sqrt_floor(a);
    let sb = sqrt_floor(b);
    if sb < sa {
        assert((sb + 1) * (sb + 1) <= sa * sa) by (nonlinear_arith)
            requires
                sb + 1 <= sa,
        ;
    }
}

/// Splitting a deposit changes nothing: the two area deltas of contributing
/// `first` and then `second` on top of a running total `prev` add up to the
/// single delta of contributing `first + second` at once, and each delta is
/// non-negative.
pub proof fn lemma_area_delta_telescopes(prev: nat, first: nat, second: nat)
    ensures
        (sqrt_floor(prev + first) - sqrt_floor(prev)) + (sqrt_floor(prev + first + second)
            - sqrt_floor(prev + first)) == sqrt_floor(prev + first + second) - sqrt_floor(prev),
        sqrt_floor(prev) <= sqrt_floor(prev + first),
        sqrt_floor(prev + first) <= sqrt_floor(prev + first + second),
{
    lemma_sqrt_floor_monotonic(prev, prev + first);
    lemma_sqrt_floor_monotonic(prev + first, prev + first + second);
}

/// One Newton step from any positive guess stays at or above the true root:
/// `(x / y + y) / 2 >= sqrt_floor(x)` for `y >= 1`.
proof fn lemma_newton_step_bounds(x: nat, y: nat)
    requires
        1 <= y,
    ensures
        (x / y + y) / 2 >= sqrt_floor(x),
{
    let s = sqrt_floor(x);
    lemma_sqrt_floor_bounds(x);
    let xi = x as int;
    let yi = y as int;
    let si = s as int;
    assert(x / y + y == xi / yi + yi);
    if yi >= 2 * si + 1 {
        lemma_div_is_ordered(2 * si + 1, xi / yi + yi, 2);
        assert((2 * si + 1) / 2 == si);
    } else {
        // y <= 2s, so s*s >= y * (2s - y) because (y - s)^2 >= 0.
        assert(si * si >= yi * (2 * si - yi)) by (nonlinear_arith);
        assert(yi * (2 * si - yi) == (2 * si - yi) * yi) by {
            lemma_mul_is_commutative(yi, 2 * si - yi);
        }
        lemma_div_by_multiple(2 * si - yi, yi);
        lemma_div_is_ordered(yi * (2 * si - yi), si * si, yi);
        assert(si * si / yi >= 2 * si - yi);
        lemma_div_is_ordered(si * si, xi, yi);
        assert(xi / yi + yi >= 2 * si);
        lemma_div_is_ordered(2 * si, xi / yi + yi, 2);
        assert((2 * si) / 2 == si);
    }
}

/// Deterministic integer square root by Newton iteration: returns
/// `floor(sqrt(x))` exactly, for every `u128`, with integer arithmetic only.
pub fn isqrt(x: u128) -> (r: u128)
    ensures
        r as nat == sqrt_floor(x as nat),
        r * r <= x,
        x < (r + 1) * (r + 1),
{
    proof {
        lemma_sqrt_floor_bounds(x as nat);
    }
    if x == 0 {
        return 0;
    }
    let ghost s: nat = sqrt_floor(x as nat);
    proof {
        // x >= 1 forces s >= 1 (else x < 1), and s >= 1 gives s <= s * s <= x.
        assert(s >= 1) by (nonlinear_arith)
            requires
                x as nat >= 1,
                (x as nat) < (s + 1) * (s + 1),
        ;
        assert(s <= s * s) by (nonlinear_arith)
            requires
                s >= 1,
        ;
        // s fits in 64 bits, since s * s <= x <= u128::MAX.
        assert(s < 0x1_0000_0000_0000_0000) by (nonlinear_arith)
            requires
                s * s <= x as nat,
                x <= u128::MAX,
        ;
    }
    let mut y: u128 = x;
    let mut z: u128 = x / 2 + x % 2;
    proof {
        lemma_div_by_self(x as int);
        lemma_fundamental_div_mod(x as int, 2);
        lemma_mod_bound(x as int, 2);
        assert(z as int == (x as int / (x as int) + x as int) / 2);
        lemma_newton_step_bounds(x as nat, x as nat);
    }
    while z < y
        invariant
            x >= 1,
            s == sqrt_floor(x as nat),
            s * s <= x as nat,
            (x as nat) < (s + 1) * (s + 1),
            s < 0x1_0000_0000_0000_0000,
            1 <= s,
            1 <= y <= x,
            s <= y as nat,
            s <= z as nat,
            z as int == (x as int / (y as int) + y as int) / 2,
            z as int <= x as int / 2 + 1,
        decreases y,
    {
        y = z;
        proof {
            // x / y <= x / s <= s + 2, so x / y + y cannot overflow.
            lemma_div_is_ordered_by_denominator(x as int, s as int, y as int);
            assert((s + 1) * (s + 1) == s * s + 2 * s + 1) by (nonlinear_arith);
            assert((s * s + 2 * s) == (s + 2) * (s as int)) by (nonlinear_arith);
            lemma_div_by_multiple(s as int + 2, s as int);
            lemma_div_is_ordered(x as int, s * s + 2 * s as int, s as int);
            assert(x as int / (s as int) <= s + 2);
            assert(x as int / (y as int) <= s + 2);
        }
        let q = x / y;
        z = (q + y) / 2;
        proof {
            lemma_newton_step_bounds(x as nat, y as nat);
            // z stays at most x / 2 + 1: q + y <= x + 1 in either case.
            if y >= 2 {
                lemma_div_is_ordered_by_denominator(x as int, 2, y as int);
                assert(q as int <= x as int / 2);
            }
            lemma_fundamental_div_mod(x as int, 2);
            lemma_mod_bound(x as int, 2);
            lemma_div_is_ordered(q as int + y as int, x as int + 1, 2);
            assert((x as int + 1) / 2 <= x as int / 2 + 1);
        }
    }
    proof {
        // The loop left with z >= y, so one step no longer shrinks the guess:
        // (x / y + y) / 2 >= y forces x / y >= y, hence y * y <= x, hence
        // y == sqrt_floor(x).
        lemma_fundamental_div_mod(x as int / (y as int) + y as int, 2);
        lemma_mod_bound(x as int / (y as int) + y as int, 2);
        assert(x as int / (y as int) + y as int >= 2 * (y as int));
        lemma_fundamental_div_mod(x as int, y as int);
        lemma_mod_bound(x as int, y as int);
        lemma_mul_inequality(y as int, x as int / (y as int), y as int);
        lemma_mul_is_commutative(y as int, x as int / (y as int));
        assert((y as nat) * (y as nat) <= x as nat);
        if s < y {
            assert((s + 1) * (s + 1) <= y as nat * (y as nat)) by (nonlinear_arith)
                requires
                    s + 1 <= y as nat,
            ;
        }
        assert(y as nat == s);
    }
    y
}

} // verus!
