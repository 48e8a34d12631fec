//! The floating-point operation count of a matrix product.

use vstd::prelude::*;

verus! {

/// Operations of an `m`-by-`n` times `n`-by-`p` product: each of the `m * p`
/// outputs takes `n` multiplications and `n - 1` additions.
pub open spec fn total_flops_of(m: int, n: int, p: int) -> int {
    (2 * n - 1) * m * p
}

/// The theoretical operation count of the product; dividing it by the
/// kernel time in nanoseconds gives GFLOPS.
pub fn total_flops(m: u32, n: u32, p: u32) -> (r: u128)
    requires
        n >= 1,
    ensures
        r == total_flops_of(m as int, n as int, p as int),
{
    let k: u128 = 2 * (n as u128) - 1;
    assert(k * m <= 0x2_0000_0000 * 0x1_0000_0000) by (nonlinear_arith)
        requires
            k < 0x2_0000_0000,
            m <= u32::MAX,
    ;
    let km: u128 = k * (m as u128);
    assert(km * p <= 0x2_0000_0000 * 0x1_0000_0000 * 0x1_0000_0000) by (nonlinear_arith)
        requires
            km <= 0x2_0000_0000 * 0x1_0000_0000,
            p <= u32::MAX,
    ;
    km * (p as u128)
}

} // verus!
