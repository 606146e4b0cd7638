//! Rounding of non-negative rationals, as used for GB/s figures.
use vstd::arithmetic::div_mod::{lemma_fundamental_div_mod, lemma_fundamental_div_mod_converse};
use vstd::prelude::*;

verus! {

/// `n / d` rounded to the nearest integer, halves rounded up.
pub open spec fn rounded_ratio(n: int, d: int) -> int {
    (2 * n + d) / (2 * d)
}

/// The mean of `n1 / d1` and `n2 / d2`, rounded to the nearest integer,
/// halves rounded up.
pub open spec fn rounded_mean(n1: int, d1: int, n2: int, d2: int) -> int {
    (n1 * d2 + n2 * d1 + d1 * d2) / (2 * d1 * d2)
}

/// Rounds `num / den` to the nearest integer (halves up).
pub fn round_ratio(num: u64, den: u64) -> (r: u128)
    requires
        den > 0,
    ensures
        r as int == rounded_ratio(num as int, den as int),
{
    let n: u128 = num as u128;
    let d: u128 = den as u128;
    (2 * n + d) / (2 * d)
}

/// Rounds the mean of `n1 / d1` and `n2 / d2` to the nearest integer
/// (halves up), without forming products that could exceed 128 bits.
pub fn round_mean(n1: u64, d1: u64, n2: u64, d2: u64) -> (r: u128)
    requires
        d1 > 0,
        d2 > 0,
    ensures
        r as int == rounded_mean(n1 as int, d1 as int, n2 as int, d2 as int),
{
    let q1: u64 = n1 / d1;
    let r1: u64 = n1 % d1;
    let q2: u64 = n2 / d2;
    let r2: u64 = n2 % d2;
    let q: u128 = q1 as u128 + q2 as u128;
    assert((r1 as u128) * (d2 as u128) <= 0xffff_ffff_ffff_ffff * 0xffff_ffff_ffff_ffff)
        by (nonlinear_arith)
        requires
            r1 <= 0xffff_ffff_ffff_ffffu64,
            d2 <= 0xffff_ffff_ffff_ffffu64,
    ;
    assert((d1 as u128) * ((d2 - r2) as u128) <= 0xffff_ffff_ffff_ffff * 0xffff_ffff_ffff_ffff)
        by (nonlinear_arith)
        requires
            d1 <= 0xffff_ffff_ffff_ffffu64,
            d2 - r2 <= 0xffff_ffff_ffff_ffffu64,
            d2 - r2 >= 0,
    ;
    let lhs: u128 = r1 as u128 * d2 as u128;
    let rhs: u128 = d1 as u128 * (d2 - r2) as u128;
    let res: u128 = if q % 2 == 1 {
        (q + 1) / 2
    } else if lhs >= rhs {
        q / 2 + 1
    } else {
        q / 2
    };
    proof {
        let (n1, d1, n2, d2) = (n1 as int, d1 as int, n2 as int, d2 as int);
        let (q1, r1, q2, r2) = (q1 as int, r1 as int, q2 as int, r2 as int);
        let dd = d1 * d2;
        let s = r1 * d2 + r2 * d1;
        let total = n1 * d2 + n2 * d1 + dd;
        lemma_fundamental_div_mod(n1, d1);
        lemma_fundamental_div_mod(n2, d2);
        assert(n1 == q1 * d1 + r1) by (nonlinear_arith)
            requires
                n1 == d1 * (n1 / d1) + n1 % d1,
                q1 == n1 / d1,
                r1 == n1 % d1,
        ;
        assert(n2 == q2 * d2 + r2) by (nonlinear_arith)
            requires
                n2 == d2 * (n2 / d2) + n2 % d2,
                q2 == n2 / d2,
                r2 == n2 % d2,
        ;
        assert(total == (q1 + q2) * dd + s + dd) by (nonlinear_arith)
            requires
                n1 == q1 * d1 + r1,
                n2 == q2 * d2 + r2,
                dd == d1 * d2,
                s == r1 * d2 + r2 * d1,
                total == n1 * d2 + n2 * d1 + dd,
        ;
        assert(0 <= s < 2 * dd) by (nonlinear_arith)
            requires
                0 <= r1 < d1,
                0 <= r2 < d2,
                dd == d1 * d2,
                s == r1 * d2 + r2 * d1,
        ;
        assert(lhs >= rhs <==> s >= dd) by (nonlinear_arith)
            requires
                lhs as int == r1 * d2,
                rhs as int == d1 * (d2 - r2),
                dd == d1 * d2,
                s == r1 * d2 + r2 * d1,
        ;
        assert(2 * d1 * d2 == 2 * dd) by (nonlinear_arith)
            requires
                dd == d1 * d2,
        ;
        assert(dd > 0) by (nonlinear_arith)
            requires
                d1 > 0,
                d2 > 0,
                dd == d1 * d2,
        ;
        let qq = q as int;
        if qq % 2 == 1 {
            let k = (qq + 1) / 2;
            assert(total == k * (2 * dd) + s) by (nonlinear_arith)
                requires
                    total == qq * dd + s + dd,
                    qq + 1 == 2 * k,
            ;
            lemma_fundamental_div_mod_converse(total, 2 * dd, k, s);
        } else if s >= dd {
            let k = qq / 2;
            assert(total == (k + 1) * (2 * dd) + (s - dd)) by (nonlinear_arith)
                requires
                    total == qq * dd + s + dd,
                    qq == 2 * k,
            ;
            lemma_fundamental_div_mod_converse(total, 2 * dd, k + 1, s - dd);
        } else {
            let k = qq / 2;
            assert(total == k * (2 * dd) + (s + dd)) by (nonlinear_arith)
                requires
                    total == qq * dd + s + dd,
                    qq == 2 * k,
            ;
            lemma_fundamental_div_mod_converse(total, 2 * dd, k, s + dd);
        }
    }
    res
}

} // verus!
