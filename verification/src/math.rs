use vstd::arithmetic::div_mod::{lemma_div_nonincreasing, lemma_div_pos_is_pos};
use vstd::prelude::*;

verus! {

/// Division rounded toward zero, the rounding the executable code performs
/// when it divides signed integers.
pub open spec fn tdiv(a: int, b: int) -> int {
    if a >= 0 {
        a / b
    } else {
        -((-a) / b)
    }
}

/// `r` is the integer square root (rounded down) of `n`.
pub open spec fn is_sqrt(n: int, r: int) -> bool {
    0 <= r && r * r <= n && n < (r + 1) * (r + 1)
}

/// The integer square root (rounded down) of a nonnegative integer.
pub closed spec fn sqrt_of(n: int) -> int {
    choose|r: int| is_sqrt(n, r)
}

/// Every nonnegative integer has an integer square root.
pub proof fn lemma_sqrt_exists(n: int)
    requires
        0 <= n,
    ensures
        is_sqrt(n, sqrt_of(n)),
    decreases n,
{
    if n == 0 {
        assert(is_sqrt(0, 0)) by (nonlinear_arith);
    } else {
        lemma_sqrt_exists(n - 1);
        let r = sqrt_of(n - 1);
        if (r + 1) * (r + 1) <= n {
            assert(is_sqrt(n, r + 1)) by (nonlinear_arith)
                requires
                    is_sqrt(n - 1, r),
                    (r + 1) * (r + 1) <= n,
            ;
        } else {
            assert(is_sqrt(n, r)) by (nonlinear_arith)
                requires
                    is_sqrt(n - 1, r),
                    (r + 1) * (r + 1) > n,
            ;
        }
    }
}

/// The integer square root is unique.
pub proof fn lemma_sqrt_unique(n: int, r: int)
    requires
        0 <= n,
        is_sqrt(n, r),
    ensures
        sqrt_of(n) == r,
{
    lemma_sqrt_exists(n);
    assert(r == sqrt_of(n)) by (nonlinear_arith)
        requires
            is_sqrt(n, r),
            is_sqrt(n, sqrt_of(n)),
    ;
}

/// Truncating division by a positive divisor never grows the magnitude.
pub proof fn lemma_tdiv_bound(a: int, b: int, bound: int)
    requires
        1 <= b,
        -bound <= a <= bound,
        0 <= bound,
    ensures
        -bound <= tdiv(a, b) <= bound,
        a >= 0 ==> 0 <= tdiv(a, b) <= a,
        a <= 0 ==> a <= tdiv(a, b) <= 0,
{
    if a >= 0 {
        lemma_div_pos_is_pos(a, b);
        lemma_div_nonincreasing(a, b);
    } else {
        lemma_div_pos_is_pos(-a, b);
        lemma_div_nonincreasing(-a, b);
    }
}

/// Executable integer square root by bisection.
pub fn isqrt(n: u128) -> (r: u128)
    ensures
        r as int == sqrt_of(n as int),
        is_sqrt(n as int, r as int),
{
    let mut lo: u128 = 0;
    let mut hi: u128 = 18446744073709551616;
    proof {
        assert((n as int) < 18446744073709551616int * 18446744073709551616int) by (nonlinear_arith)
            requires
                n as int <= u128::MAX as int,
        ;
    }
    while lo + 1 < hi
        invariant
            lo < hi <= 18446744073709551616,
            (lo as int) * (lo as int) <= n as int,
            (n as int) < (hi as int) * (hi as int),
        decreases hi - lo,
    {
        let mid = lo + (hi - lo) / 2;
        proof {
            assert((mid as int) * (mid as int) <= u128::MAX as int) by (nonlinear_arith)
                requires
                    mid as int <= 18446744073709551615int,
            ;
        }
        if mid * mid <= n {
            lo = mid;
        } else {
            hi = mid;
        }
    }
    proof {
        assert(is_sqrt(n as int, lo as int));
        lemma_sqrt_unique(n as int, lo as int);
    }
    lo
}

/// Executable division rounded toward zero.
pub fn div_trunc(a: i128, b: i128) -> (r: i128)
    requires
        1 <= b,
        i128::MIN < a,
    ensures
        r as int == tdiv(a as int, b as int),
{
    proof {
        lemma_tdiv_bound(a as int, b as int, if a >= 0 { a as int } else { -a as int });
    }
    let q = a.checked_div(b);
    q.unwrap()
}

} // verus!
