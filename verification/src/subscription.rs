//! Catalog entries and the length of a purchased period.

use vstd::prelude::*;
use vstd::std_specs::convert::FromSpecImpl;
use crate::wide::mul_div;
use crate::wide::mul_div_floor;

verus! {

/// Length of a year in milliseconds: the period that one yearly price buys.
pub const YEAR_IN_MS: u128 = 31556926000;

/// A catalog entry: what a subscription is called and what a year of it
/// costs, at the retail and at the wholesale rate.
#[derive(Debug)]
pub struct Subscription {
    pub title: String,
    pub description: String,
    pub image_url: String,
    pub price: u128,
    pub price_wholesale: u128,
}

/// A stored catalog entry, tagged with the layout it was stored in.
#[derive(Debug)]
pub enum VSubscription {
    Current(Subscription),
}

/// A catalog entry as it is handed to readers.
#[derive(Debug)]
pub struct SubscriptionOutput {
    pub title: String,
    pub description: String,
    pub image_url: String,
    pub price: u128,
    pub price_wholesale: u128,
}

impl From<VSubscription> for Subscription {
    fn from(v_subscription: VSubscription) -> (r: Subscription) {
        match v_subscription {
            VSubscription::Current(subscription) => subscription,
        }
    }
}

impl FromSpecImpl<VSubscription> for Subscription {
    open spec fn obeys_from_spec() -> bool {
        true
    }

    open spec fn from_spec(v_subscription: VSubscription) -> Subscription {
        v_subscription->Current_0
    }
}

impl From<VSubscription> for SubscriptionOutput {
    fn from(v_subscription: VSubscription) -> (r: SubscriptionOutput) {
        match v_subscription {
            VSubscription::Current(subscription) => SubscriptionOutput {
                title: subscription.title,
                description: subscription.description,
                image_url: subscription.image_url,
                price: subscription.price,
                price_wholesale: subscription.price_wholesale,
            },
        }
    }
}

impl FromSpecImpl<VSubscription> for SubscriptionOutput {
    open spec fn obeys_from_spec() -> bool {
        true
    }

    open spec fn from_spec(v_subscription: VSubscription) -> SubscriptionOutput {
        SubscriptionOutput {
            title: v_subscription->Current_0.title,
            description: v_subscription->Current_0.description,
            image_url: v_subscription->Current_0.image_url,
            price: v_subscription->Current_0.price,
            price_wholesale: v_subscription->Current_0.price_wholesale,
        }
    }
}

/// Why no period can be given for an amount.
#[derive(Clone, Copy, Debug, PartialEq, Eq, Structural)]
pub enum PeriodError {
    /// The price that applies is zero.
    ZeroPrice,
    /// The period does not fit in 128 bits.
    Overflow,
}

impl Subscription {
    /// The yearly price that applies to a deposit of `amount`: the wholesale
    /// price once the deposit reaches it, the retail price below.
    pub open spec fn applicable_price(&self, amount: u128) -> u128 {
        if amount >= self.price_wholesale {
            self.price_wholesale
        } else {
            self.price
        }
    }

    /// The period in milliseconds that `amount` buys:
    /// `floor(amount * YEAR_IN_MS / price)` at the price that applies.
    pub open spec fn period(&self, amount: u128) -> int {
        mul_div_floor(amount as int, YEAR_IN_MS as int, self.applicable_price(amount) as int)
    }

    /// The yearly price at the retail or the wholesale rate.
    pub fn get_subscription_price(&self, is_wholesale: bool) -> (r: u128)
        ensures
            r == if is_wholesale {
                self.price_wholesale
            } else {
                self.price
            },
    {
        if is_wholesale {
            self.price_wholesale
        } else {
            self.price
        }
    }

    /// The period that `amount` buys, or the reason why there is none.
    pub fn purchased_period(&self, amount: u128) -> (r: Result<u128, PeriodError>)
        ensures
            r == if self.applicable_price(amount) == 0 {
                Err::<u128, PeriodError>(PeriodError::ZeroPrice)
            } else if self.period(amount) > u128::MAX {
                Err::<u128, PeriodError>(PeriodError::Overflow)
            } else {
                Ok::<u128, PeriodError>(self.period(amount) as u128)
            },
    {
        let price: u128 = self.get_subscription_price(amount >= self.price_wholesale);
        if price == 0 {
            return Err(PeriodError::ZeroPrice);
        }
        match mul_div(amount, YEAR_IN_MS, price) {
            Some(period) => Ok(period),
            None => Err(PeriodError::Overflow),
        }
    }
}

/// Two purchases at one price buy together what their sum buys at once, up
/// to the millisecond that rounding down can lose.
pub proof fn lemma_period_additive(price: u128, a1: u128, a2: u128)
    requires
        price != 0,
    ensures
        mul_div_floor(a1 as int, YEAR_IN_MS as int, price as int) + mul_div_floor(
            a2 as int,
            YEAR_IN_MS as int,
            price as int,
        ) <= mul_div_floor(a1 + a2, YEAR_IN_MS as int, price as int),
        mul_div_floor(a1 + a2, YEAR_IN_MS as int, price as int) <= mul_div_floor(
            a1 as int,
            YEAR_IN_MS as int,
            price as int,
        ) + mul_div_floor(a2 as int, YEAR_IN_MS as int, price as int) + 1,
{
    let y = YEAR_IN_MS as int;
    let p = price as int;
    let x1 = a1 * y;
    let x2 = a2 * y;
    assert((a1 + a2) * y == x1 + x2) by (nonlinear_arith)
        requires
            x1 == a1 * y,
            x2 == a2 * y,
    ;
    vstd::arithmetic::div_mod::lemma_fundamental_div_mod(x1, p);
    vstd::arithmetic::div_mod::lemma_fundamental_div_mod(x2, p);
    vstd::arithmetic::div_mod::lemma_mod_bound(x1, p);
    vstd::arithmetic::div_mod::lemma_mod_bound(x2, p);
    let q = x1 / p + x2 / p;
    let r = x1 % p + x2 % p;
    assert(x1 + x2 == q * p + r) by (nonlinear_arith)
        requires
            x1 == p * (x1 / p) + x1 % p,
            x2 == p * (x2 / p) + x2 % p,
            q == x1 / p + x2 / p,
            r == x1 % p + x2 % p,
    ;
    if r < p {
        vstd::arithmetic::div_mod::lemma_fundamental_div_mod_converse(x1 + x2, p, q, r);
    } else {
        assert(x1 + x2 == (q + 1) * p + (r - p)) by (nonlinear_arith)
            requires
                x1 + x2 == q * p + r,
        ;
        vstd::arithmetic::div_mod::lemma_fundamental_div_mod_converse(x1 + x2, p, q + 1, r - p);
    }
}

} // verus!
