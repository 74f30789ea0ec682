//! Fee fractions: the rate of a referral commission.

use vstd::prelude::*;
use crate::wide::mul_div;
use crate::wide::mul_div_floor;

verus! {

/// A rate between zero and one, as numerator over denominator.
#[derive(Clone, Copy, Debug, PartialEq, Eq, Structural)]
pub struct FeeFraction {
    pub numerator: u32,
    pub denominator: u32,
}

/// Why a fee fraction is not a rate.
#[derive(Clone, Copy, Debug, PartialEq, Eq, Structural)]
pub enum FeeError {
    /// The denominator is zero.
    ZeroDenominator,
    /// The numerator is above the denominator: the rate would exceed one.
    AboveOne,
}

impl FeeError {
    /// The message that goes with the rejection.
    pub fn message(&self) -> (r: &'static str)
        ensures
            r@ == match *self {
                FeeError::ZeroDenominator => "Denominator must be a positive number"@,
                FeeError::AboveOne => "The fee must be less or equal to 1"@,
            },
    {
        match self {
            FeeError::ZeroDenominator => "Denominator must be a positive number",
            FeeError::AboveOne => "The fee must be less or equal to 1",
        }
    }
}

impl FeeFraction {
    /// The fraction is a rate in `[0, 1]`.
    pub open spec fn valid(&self) -> bool {
        self.denominator != 0 && self.numerator <= self.denominator
    }

    /// `floor(value * numerator / denominator)` over the integers.
    pub open spec fn product(&self, value: u128) -> int {
        mul_div_floor(value as int, self.numerator as int, self.denominator as int)
    }

    /// Checks that the fraction is a rate: the denominator is tested first.
    pub fn assert_valid(&self) -> (r: Result<(), FeeError>)
        ensures
            r is Ok <==> self.valid(),
            r == Err::<(), FeeError>(FeeError::ZeroDenominator) <==> self.denominator == 0,
            r == Err::<(), FeeError>(FeeError::AboveOne) <==> self.denominator != 0
                && self.numerator > self.denominator,
    {
        if self.denominator == 0 {
            Err(FeeError::ZeroDenominator)
        } else if self.numerator > self.denominator {
            Err(FeeError::AboveOne)
        } else {
            Ok(())
        }
    }

    /// The share of `value` that the fraction stands for, rounded down, or
    /// `None` where the denominator is zero or the share exceeds 128 bits.
    pub fn checked_multiply(&self, value: u128) -> (r: Option<u128>)
        ensures
            r == if self.denominator != 0 && self.product(value) <= u128::MAX {
                Some(self.product(value) as u128)
            } else {
                None::<u128>
            },
    {
        if self.denominator == 0 {
            None
        } else {
            mul_div(value, self.numerator as u128, self.denominator as u128)
        }
    }

    /// The share of `value` that the fraction stands for, rounded down.
    ///
    /// Every valid fraction meets the precondition for every `value`, as
    /// [`lemma_share_within_value`] shows.
    pub fn multiply(&self, value: u128) -> (r: u128)
        requires
            self.denominator != 0,
            self.product(value) <= u128::MAX,
        ensures
            r == self.product(value),
            self.numerator <= self.denominator ==> r <= value,
    {
        proof {
            if self.numerator <= self.denominator {
                lemma_share_within_value(*self, value);
            }
        }
        match self.checked_multiply(value) {
            Some(share) => share,
            None => 0,
        }
    }
}

/// A share at a rate of at most one never exceeds the value it is taken of,
/// so it always fits where the value does.
pub proof fn lemma_share_within_value(fee: FeeFraction, value: u128)
    requires
        fee.valid(),
    ensures
        0 <= fee.product(value) <= value,
        fee.product(value) <= u128::MAX,
{
    let v = value as int;
    let n = fee.numerator as int;
    let d = fee.denominator as int;
    assert(0 <= v * n <= v * d) by (nonlinear_arith)
        requires
            0 <= n <= d,
            0 <= v,
    ;
    vstd::arithmetic::div_mod::lemma_div_is_ordered(0, v * n, d);
    vstd::arithmetic::div_mod::lemma_div_is_ordered(v * n, v * d, d);
    assert(v * d == d * v) by (nonlinear_arith);
    vstd::arithmetic::div_mod::lemma_div_multiples_vanish(v, d);
}

/// A higher rate never pays less on the same value.
pub proof fn lemma_higher_rate_not_less(standard: FeeFraction, premium: FeeFraction, value: u128)
    requires
        standard.denominator != 0,
        premium.denominator != 0,
        premium.numerator * standard.denominator >= standard.numerator * premium.denominator,
    ensures
        premium.product(value) >= standard.product(value),
{
    let v = value as int;
    let sn = standard.numerator as int;
    let sd = standard.denominator as int;
    let pn = premium.numerator as int;
    let pd = premium.denominator as int;
    let qs = (v * sn) / sd;
    let qp = (v * pn) / pd;
    vstd::arithmetic::div_mod::lemma_fundamental_div_mod(v * sn, sd);
    vstd::arithmetic::div_mod::lemma_fundamental_div_mod(v * pn, pd);
    let rs = (v * sn) % sd;
    let rp = (v * pn) % pd;
    assert(0 <= rs < sd && 0 <= rp < pd) by {
        vstd::arithmetic::div_mod::lemma_mod_bound(v * sn, sd);
        vstd::arithmetic::div_mod::lemma_mod_bound(v * pn, pd);
    }
    // qs * sd <= v * sn and v * pn < (qp + 1) * pd; cross-multiplying the
    // rates gives qs < qp + 1.
    assert(qs < qp + 1) by (nonlinear_arith)
        requires
            v * sn == sd * qs + rs,
            v * pn == pd * qp + rp,
            0 <= rs,
            rp < pd,
            pn * sd >= sn * pd,
            sd > 0,
            pd > 0,
            v >= 0,
            sn >= 0,
            pn >= 0,
    ;
}

/// Where the two rates differ by at least one unit on `value`, the premium
/// rate pays strictly more.
///
/// The gap between the exact shares is
/// `value * (pn * sd - sn * pd) / (pd * sd)`; once it reaches one, rounding
/// down cannot hide it.
pub proof fn lemma_premium_pays_more(standard: FeeFraction, premium: FeeFraction, value: u128)
    requires
        standard.denominator != 0,
        premium.denominator != 0,
        value * (premium.numerator * standard.denominator - standard.numerator
            * premium.denominator) >= premium.denominator * standard.denominator,
    ensures
        premium.product(value) > standard.product(value),
{
    let v = value as int;
    let sn = standard.numerator as int;
    let sd = standard.denominator as int;
    let pn = premium.numerator as int;
    let pd = premium.denominator as int;
    let qs = (v * sn) / sd;
    let qp = (v * pn) / pd;
    vstd::arithmetic::div_mod::lemma_fundamental_div_mod(v * sn, sd);
    vstd::arithmetic::div_mod::lemma_fundamental_div_mod(v * pn, pd);
    let rs = (v * sn) % sd;
    let rp = (v * pn) % pd;
    assert(0 <= rs < sd && 0 <= rp < pd) by {
        vstd::arithmetic::div_mod::lemma_mod_bound(v * sn, sd);
        vstd::arithmetic::div_mod::lemma_mod_bound(v * pn, pd);
    }
    // (qp + 1) * pd * sd > v * pn * sd >= v * sn * pd + pd * sd
    //                                  >= qs * sd * pd + pd * sd
    assert(qp + 1 > qs + 1) by (nonlinear_arith)
        requires
            v * sn == sd * qs + rs,
            v * pn == pd * qp + rp,
            0 <= rs,
            rp < pd,
            v * (pn * sd - sn * pd) >= pd * sd,
            sd > 0,
            pd > 0,
    ;
}

} // verus!
