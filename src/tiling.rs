//! Tile arithmetic: rounding dimensions up to a multiple of the tile size,
//! the integer square root of a work-group limit, and the greatest common
//! divisor used to size the padding dispatch.

use vstd::arithmetic::div_mod::{
    lemma_fundamental_div_mod,
    lemma_fundamental_div_mod_converse,
    lemma_mod_multiples_basic,
};
use vstd::prelude::*;

verus! {

/// `ceil(n / t)`, for `n >= 0` and `t > 0`.
pub open spec fn ceil_div(n: int, t: int) -> int {
    (n + t - 1) / t
}

/// The smallest multiple of `t` that is at least `n`: `ceil(n / t) * t`.
pub open spec fn round_up(n: int, t: int) -> int {
    ceil_div(n, t) * t
}

/// Rounding up to a tile multiple gives a multiple of the tile, never
/// shrinks the dimension, grows it by less than one tile, and leaves a
/// dimension that is already a multiple unchanged.
pub proof fn lemma_round_up(n: int, t: int)
    requires
        0 <= n,
        0 < t,
    ensures
        round_up(n, t) % t == 0,
        n <= round_up(n, t) < n + t,
        n % t == 0 ==> round_up(n, t) == n,
{
    let q = (n + t - 1) / t;
    lemma_fundamental_div_mod(n + t - 1, t);
    assert(t * q == q * t) by (nonlinear_arith);
    lemma_mod_multiples_basic(q, t);
    if n % t == 0 {
        let k = n / t;
        lemma_fundamental_div_mod(n, t);
        assert(t * k == k * t) by (nonlinear_arith);
        lemma_fundamental_div_mod_converse(n + t - 1, t, k, t - 1);
    }
}

/// `n` rounded up to the next multiple of `by` (the padded dimension).
pub fn ceil_divisible_by(n: u32, by: u32) -> (r: u32)
    requires
        by > 0,
        round_up(n as int, by as int) <= u32::MAX,
    ensures
        r == round_up(n as int, by as int),
{
    let q: u64 = (n as u64 + by as u64 - 1) / (by as u64);
    let r: u64 = q * (by as u64);
    r as u32
}

/// Whether a dimension has to be padded before a tile fits it evenly.
pub fn needs_padding(n: u32, tile_size: u32) -> (r: bool)
    requires
        tile_size > 0,
        round_up(n as int, tile_size as int) <= u32::MAX,
    ensures
        r == (round_up(n as int, tile_size as int) != n),
        r == (n % tile_size != 0),
{
    proof {
        lemma_round_up(n as int, tile_size as int);
    }
    ceil_divisible_by(n, tile_size) != n
}

/// `r` is the integer square root of `x`.
pub open spec fn is_floor_sqrt(x: int, r: int) -> bool {
    0 <= r && r * r <= x < (r + 1) * (r + 1)
}

/// The integer square root of a non-negative `x`: the largest `r` with
/// `r * r <= x`.
pub open spec fn floor_sqrt_of(x: int) -> int {
    choose|r: int| is_floor_sqrt(x, r)
}

proof fn lemma_floor_sqrt_unique(x: int, r: int, s: int)
    requires
        is_floor_sqrt(x, r),
        is_floor_sqrt(x, s),
    ensures
        r == s,
{
    if r < s {
        assert((r + 1) * (r + 1) <= s * s) by (nonlinear_arith)
            requires
                0 <= r < s,
        ;
    } else if s < r {
        assert((s + 1) * (s + 1) <= r * r) by (nonlinear_arith)
            requires
                0 <= s < r,
        ;
    }
}

/// The integer square root of `x`.
pub fn floor_sqrt(x: u32) -> (r: u32)
    ensures
        is_floor_sqrt(x as int, r as int),
        r == floor_sqrt_of(x as int),
{
    let mut r: u64 = 0;
    loop
        invariant
            r * r <= x,
            r < 65536,
        ensures
            r * r <= x < (r + 1) * (r + 1),
            r < 65536,
        decreases 65536 - r,
    {
        let next: u64 = r + 1;
        assert(next * next <= 0x1_0000_0000) by (nonlinear_arith)
            requires
                next <= 65536,
        ;
        if next * next > x as u64 {
            break;
        }
        assert(next < 65536) by (nonlinear_arith)
            requires
                next * next <= x,
                x <= u32::MAX,
        ;
        r = next;
    }
    proof {
        assert(is_floor_sqrt(x as int, r as int));
        lemma_floor_sqrt_unique(x as int, r as int, floor_sqrt_of(x as int));
    }
    r as u32
}

/// Greatest common divisor by Euclid's rule; `gcd_spec(0, 0) == 0`.
pub open spec fn gcd_spec(a: nat, b: nat) -> nat
    decreases b,
{
    if b == 0 {
        a
    } else {
        gcd_spec(b, a % b)
    }
}

/// `d` is a positive divisor of `x`.
pub open spec fn divides(d: int, x: int) -> bool {
    d > 0 && x % d == 0
}

proof fn lemma_divides_combination(x: int, y: int, k: int, d: int)
    requires
        divides(d, x),
        divides(d, y),
    ensures
        divides(d, x * k + y),
        divides(d, y - x * k),
{
    lemma_fundamental_div_mod(x, d);
    lemma_fundamental_div_mod(y, d);
    let u = x / d;
    let v = y / d;
    assert(x * k + y == (u * k + v) * d) by (nonlinear_arith)
        requires
            x == d * u,
            y == d * v,
    ;
    assert(y - x * k == (v - u * k) * d) by (nonlinear_arith)
        requires
            x == d * u,
            y == d * v,
    ;
    lemma_mod_multiples_basic(u * k + v, d);
    lemma_mod_multiples_basic(v - u * k, d);
}

/// Unless both arguments are zero, `gcd_spec(a, b)` divides both, and every
/// common divisor of `a` and `b` divides it: it is their greatest common
/// divisor.
pub proof fn lemma_gcd_is_greatest(a: nat, b: nat)
    requires
        a > 0 || b > 0,
    ensures
        divides(gcd_spec(a, b) as int, a as int),
        divides(gcd_spec(a, b) as int, b as int),
        forall|d: int|
            divides(d, a as int) && divides(d, b as int) ==> #[trigger] divides(
                d,
                gcd_spec(a, b) as int,
            ),
    decreases b,
{
    if b == 0 {
        assert(divides(a as int, a as int)) by {
            lemma_mod_multiples_basic(1, a as int);
        }
    } else {
        let r = a % b;
        let q = a as int / b as int;
        lemma_gcd_is_greatest(b, r);
        let g = gcd_spec(b, r) as int;
        lemma_fundamental_div_mod(a as int, b as int);
        assert((b as int) * q == q * (b as int)) by (nonlinear_arith);
        assert(divides(g, a as int)) by {
            lemma_divides_combination(b as int, r as int, q, g);
        }
        assert forall|d: int|
            divides(d, a as int) && divides(d, b as int) implies #[trigger] divides(
            d,
            gcd_spec(a, b) as int,
        ) by {
            lemma_divides_combination(b as int, a as int, q, d);
        }
    }
}

/// Greatest common divisor of `a` and `b` (zero when both are zero).
pub fn gcd(a: u32, b: u32) -> (r: u32)
    ensures
        r == gcd_spec(a as nat, b as nat),
{
    let mut x: u32 = a;
    let mut y: u32 = b;
    while y > 0
        invariant
            gcd_spec(x as nat, y as nat) == gcd_spec(a as nat, b as nat),
        decreases y,
    {
        let rem: u32 = x % y;
        x = y;
        y = rem;
    }
    x
}

} // verus!
