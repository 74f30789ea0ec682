//! Exact `floor(a * b / c)` on 128-bit operands.
//!
//! The product of two 128-bit numbers needs up to 256 bits. Instead of a wider
//! integer type, the quotient is assembled from quotient/remainder pairs that
//! each fit in 128 bits, and the result is proved equal to the quotient over
//! the mathematical integers.

use vstd::prelude::*;
use vstd::arithmetic::div_mod::lemma_fundamental_div_mod;
use vstd::arithmetic::div_mod::lemma_fundamental_div_mod_converse;

verus! {

/// `floor(a * b / c)` over the mathematical integers.
pub open spec fn mul_div_floor(a: int, b: int, c: int) -> int
    recommends
        c > 0,
{
    (a * b) / c
}

/// From `q * c + r <= total < c * b` with `r >= 0` it follows that `q < b`.
proof fn lemma_quotient_below(q: int, r: int, c: int, b: int, total: int)
    requires
        c > 0,
        r >= 0,
        q >= 0,
        q * c + r <= total,
        total < c * b,
    ensures
        q < b,
{
    assert(q < b) by (nonlinear_arith)
        requires
            c > 0,
            q >= 0,
            q * c < c * b,
    ;
}

/// Adds two residues modulo `c` without leaving 128 bits: returns the residue
/// of the sum and whether `c` was subtracted once.
fn add_residues(x: u128, y: u128, c: u128) -> (r: (u128, bool))
    requires
        x < c,
        y < c,
    ensures
        r.0 < c,
        x + y == r.0 + (if r.1 { c as int } else { 0 }),
{
    if x >= c - y {
        (x - (c - y), true)
    } else {
        (x + y, false)
    }
}

/// `floor(r0 * b / c)` for a residue `r0 < c`; the result is below `b`, or
/// zero when `b` is zero.
fn residue_quotient(r0: u128, b: u128, c: u128) -> (q: u128)
    requires
        r0 < c,
    ensures
        q == mul_div_floor(r0 as int, b as int, c as int),
        q <= b,
{
    // acc = qa * c + ra is the part of the product gathered so far,
    // dbl = qd * c + rd is r0 times the weight of the lowest bit left in m.
    let mut qa: u128 = 0;
    let mut ra: u128 = 0;
    let mut qd: u128 = 0;
    let mut rd: u128 = r0;
    let mut m: u128 = b;
    proof {
        assert(0 * (c as int) + 0 + (0 * (c as int) + r0) * (b as int) == (r0 as int) * (b as int))
            by (nonlinear_arith);
    }
    while m > 0
        invariant
            r0 < c,
            ra < c,
            rd < c,
            qa * c + ra + (qd * c + rd) * m == r0 * b,
            qa <= b,
            m <= b,
        decreases m,
    {
        let ghost total = (r0 as int) * (b as int);
        let ghost acc = qa * c + ra;
        let ghost dbl = qd * c + rd;
        proof {
            assert(total < (c as int) * (b as int)) by (nonlinear_arith)
                requires
                    r0 < c,
                    b >= 1,
                    total == (r0 as int) * (b as int),
            ;
            assert(acc >= 0 && dbl >= 0) by (nonlinear_arith)
                requires
                    acc == qa * c + ra,
                    dbl == qd * c + rd,
            ;
        }
        let half: u128 = m / 2;
        if m % 2 == 1 {
            let (s, carry) = add_residues(ra, rd, c);
            let ghost k: int = if carry { 1 } else { 0 };
            proof {
                // acc + dbl <= acc + dbl * m == total
                assert(acc + dbl <= total) by (nonlinear_arith)
                    requires
                        acc + dbl * m == total,
                        dbl >= 0,
                        m >= 1,
                ;
                assert((qa + qd + k) * c + s == acc + dbl) by (nonlinear_arith)
                    requires
                        acc == qa * c + ra,
                        dbl == qd * c + rd,
                        ra + rd == s + k * c,
                ;
                lemma_quotient_below(qa + qd + k, s as int, c as int, b as int, total);
                assert(acc + dbl + (2 * dbl) * half == total) by (nonlinear_arith)
                    requires
                        acc + dbl * m == total,
                        m == 2 * half + 1,
                ;
            }
            qa = qa + qd + (if carry { 1 } else { 0 });
            ra = s;
        } else {
            proof {
                assert(acc + (2 * dbl) * half == total) by (nonlinear_arith)
                    requires
                        acc + dbl * m == total,
                        m == 2 * half,
                ;
            }
        }
        m = half;
        if m > 0 {
            let (s, carry) = add_residues(rd, rd, c);
            let ghost k: int = if carry { 1 } else { 0 };
            let ghost acc2 = qa * c + ra;
            proof {
                assert(acc2 >= 0) by (nonlinear_arith)
                    requires
                        acc2 == qa * c + ra,
                ;
                assert(2 * dbl <= total) by (nonlinear_arith)
                    requires
                        acc2 + (2 * dbl) * m == total,
                        acc2 >= 0,
                        dbl >= 0,
                        m >= 1,
                ;
                assert((qd + qd + k) * c + s == 2 * dbl) by (nonlinear_arith)
                    requires
                        dbl == qd * c + rd,
                        rd + rd == s + k * c,
                ;
                lemma_quotient_below(qd + qd + k, s as int, c as int, b as int, total);
            }
            qd = qd + qd + (if carry { 1 } else { 0 });
            rd = s;
        } else {
            proof {
                assert(qa * c + ra + (qd * c + rd) * 0 == total) by (nonlinear_arith)
                    requires
                        qa * c + ra + (2 * dbl) * 0 == total,
                ;
            }
        }
    }
    proof {
        assert(qa * c + ra == r0 * b) by (nonlinear_arith)
            requires
                qa * c + ra + (qd * c + rd) * m == r0 * b,
                m == 0,
        ;
        lemma_fundamental_div_mod_converse((r0 as int) * (b as int), c as int, qa as int, ra as int);
    }
    qa
}

/// Splitting `a` into `q * c + r` splits the quotient of the product:
/// `floor(a * b / c) == q * b + floor(r * b / c)`.
pub proof fn lemma_mul_div_split(a: int, b: int, c: int)
    requires
        c > 0,
    ensures
        mul_div_floor(a, b, c) == (a / c) * b + mul_div_floor(a % c, b, c),
{
    let q = a / c;
    let r = a % c;
    let low = (r * b) / c;
    let rem = (r * b) % c;
    lemma_fundamental_div_mod(a, c);
    lemma_fundamental_div_mod(r * b, c);
    assert(a * b == (q * b + low) * c + rem) by (nonlinear_arith)
        requires
            a == c * q + r,
            r * b == c * low + rem,
    ;
    lemma_fundamental_div_mod_converse(a * b, c, q * b + low, rem);
}

/// `floor(a * b / c)`, or `None` when that quotient does not fit in 128 bits.
///
/// The intermediate product is never formed, so no operand is too large.
pub fn mul_div(a: u128, b: u128, c: u128) -> (r: Option<u128>)
    requires
        c != 0,
    ensures
        r == if mul_div_floor(a as int, b as int, c as int) <= u128::MAX {
            Some(mul_div_floor(a as int, b as int, c as int) as u128)
        } else {
            None::<u128>
        },
{
    let q: u128 = a / c;
    let r0: u128 = a % c;
    let low: u128 = residue_quotient(r0, b, c);
    proof {
        lemma_mul_div_split(a as int, b as int, c as int);
        assert(q * b >= 0) by (nonlinear_arith)
            requires
                q >= 0,
                b >= 0,
        ;
    }
    match q.checked_mul(b) {
        None => None,
        Some(high) => high.checked_add(low),
    }
}

} // verus!
