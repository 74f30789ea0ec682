//! The owner's operations on the catalog, the fees and the deposits, the
//! readers of the state, and the upgrade of a state persisted without the
//! referral ledger.

use vstd::prelude::*;
use vstd::string::*;
use crate::contract::ContractError;
use crate::contract::SocialPremium;
use crate::contract::State;
use crate::decimal::decimal_text;
use crate::decimal::format_u128;
use crate::json::Value;
use crate::ledger::lemma_ledger_sum_empty;
use crate::settlement::WriteRequest;
use crate::social::SettlementError;
use crate::social::SOCIAL_PREMIUM_ACCOUNT_ID;
use crate::store::StrMap;
use crate::subscription::PeriodError;
use crate::subscription::Subscription;
use crate::subscription::SubscriptionOutput;
use crate::subscription::VSubscription;
use crate::utils::FeeError;
use crate::utils::FeeFraction;

verus! {

/// Where withdrawn deposits go when no destination is named.
pub const SOCIAL_PREMIUM_TREASURY_ACCOUNT_ID: &'static str = "treasury.premium.social.near";

/// A payment of kept deposits, to be made by the caller.
#[derive(Debug)]
pub struct Withdrawal {
    pub destination_account_id: String,
    pub amount: u128,
}

/// A persisted state from before the referral ledger existed: owner,
/// catalog, locks and counters.
#[derive(Debug)]
pub struct OldContract {
    pub owner_id: String,
    pub subscriptions: StrMap<VSubscription>,
    pub account_locks: StrMap<u64>,
    pub deposits: u128,
    pub operations: u64,
}

/// `metadata` is exactly the description of a catalog entry: title,
/// description, both prices in decimal, and the image by its address.
pub open spec fn describes(metadata: Value, subscription: Subscription) -> bool {
    match metadata.members() {
        Some(m) => {
            &&& m.dom() =~= set![
                "name"@,
                "description"@,
                "price"@,
                "price_wholesale"@,
                "image"@,
            ]
            &&& m["name"@].text() == Some(subscription.title@)
            &&& m["description"@].text() == Some(subscription.description@)
            &&& m["price"@].text() == Some(decimal_text(subscription.price as nat))
            &&& m["price_wholesale"@].text() == Some(
                decimal_text(subscription.price_wholesale as nat),
            )
            &&& match m["image"@].sole("url"@) {
                Some(url) => url.text() == Some(subscription.image_url@),
                None => false,
            }
        },
        None => false,
    }
}

/// `data` is exactly `{<namespace>: {"badge": {<name>: {"metadata": m}}}}`
/// with `m` the description of the catalog entry.
pub open spec fn commits_metadata(data: Value, name: Seq<char>, subscription: Subscription) -> bool {
    match data.sole(SOCIAL_PREMIUM_ACCOUNT_ID@) {
        Some(namespace) => match namespace.sole("badge"@) {
            Some(badge) => match badge.sole(name) {
                Some(entry) => match entry.sole("metadata"@) {
                    Some(metadata) => describes(metadata, subscription),
                    None => false,
                },
                None => false,
            },
            None => false,
        },
        None => false,
    }
}

/// The five keys of a description are five different texts.
proof fn lemma_metadata_keys_differ()
    ensures
        "name"@ != "description"@,
        "name"@ != "price"@,
        "name"@ != "price_wholesale"@,
        "name"@ != "image"@,
        "description"@ != "price"@,
        "description"@ != "price_wholesale"@,
        "description"@ != "image"@,
        "price"@ != "price_wholesale"@,
        "price"@ != "image"@,
        "price_wholesale"@ != "image"@,
{
    reveal_strlit("name");
    reveal_strlit("description");
    reveal_strlit("price");
    reveal_strlit("price_wholesale");
    reveal_strlit("image");
    assert("name"@.len() == 4);
    assert("description"@.len() == 11);
    assert("price"@.len() == 5);
    assert("price_wholesale"@.len() == 15);
    assert("image"@.len() == 5);
    assert("price"@[0] == 'p');
    assert("image"@[0] == 'i');
}

/// Builds the payload that publishes a catalog entry.
pub fn metadata_payload(subscription_name: String, subscription: &Subscription) -> (r: Value)
    ensures
        commits_metadata(r, subscription_name@, *subscription),
{
    let image = Value::wrap(
        String::from_str("url"),
        Value::String(subscription.image_url.clone()),
    );
    let mut badge_data: StrMap<Value> = StrMap::new();
    badge_data.insert(String::from_str("name"), Value::String(subscription.title.clone()));
    badge_data.insert(
        String::from_str("description"),
        Value::String(subscription.description.clone()),
    );
    badge_data.insert(String::from_str("price"), Value::String(format_u128(subscription.price)));
    badge_data.insert(
        String::from_str("price_wholesale"),
        Value::String(format_u128(subscription.price_wholesale)),
    );
    badge_data.insert(String::from_str("image"), image);
    proof {
        lemma_metadata_keys_differ();
        assert(badge_data@.dom() =~= set![
            "name"@,
            "description"@,
            "price"@,
            "price_wholesale"@,
            "image"@,
        ]);
    }
    let metadata = Value::Object(badge_data);
    assert(describes(metadata, *subscription));
    let entry = Value::wrap(String::from_str("metadata"), metadata);
    let badge = Value::wrap(subscription_name, entry);
    let namespace = Value::wrap(String::from_str("badge"), badge);
    Value::wrap(String::from_str(SOCIAL_PREMIUM_ACCOUNT_ID), namespace)
}

impl SocialPremium {
    /// Sets the rate paid to referrals. Only the owner may, and only to a
    /// rate.
    pub fn set_referral_fee(&mut self, predecessor: &String, referral_fee: FeeFraction) -> (r:
        Result<(), ContractError>)
        ensures
            r is Ok <==> predecessor@ == old(self)@.owner_id && referral_fee.valid(),
            r is Ok ==> final(self)@ == (State { referral_fee, ..old(self)@ }),
            r is Ok && old(self)@.well_formed() ==> final(self)@.well_formed(),
            r is Err ==> *final(self) == *old(self),
            r is Err ==> r->Err_0 == (if predecessor@ != old(self)@.owner_id {
                ContractError::NoAccess
            } else if referral_fee.denominator == 0 {
                ContractError::InvalidFee(FeeError::ZeroDenominator)
            } else {
                ContractError::InvalidFee(FeeError::AboveOne)
            }),
    {
        match self.assert_owner(predecessor) {
            Err(e) => {
                return Err(e);
            },
            Ok(()) => {},
        }
        match referral_fee.assert_valid() {
            Err(e) => {
                return Err(ContractError::InvalidFee(e));
            },
            Ok(()) => {},
        }
        self.referral_fee = referral_fee;
        Ok(())
    }

    /// Sets the rate paid to referrals whose own entitlement is running.
    /// Only the owner may, and only to a rate.
    pub fn set_premium_referral_fee(
        &mut self,
        predecessor: &String,
        premium_referral_fee: FeeFraction,
    ) -> (r: Result<(), ContractError>)
        ensures
            r is Ok <==> predecessor@ == old(self)@.owner_id && premium_referral_fee.valid(),
            r is Ok ==> final(self)@ == (State { premium_referral_fee, ..old(self)@ }),
            r is Ok && old(self)@.well_formed() ==> final(self)@.well_formed(),
            r is Err ==> *final(self) == *old(self),
            r is Err ==> r->Err_0 == (if predecessor@ != old(self)@.owner_id {
                ContractError::NoAccess
            } else if premium_referral_fee.denominator == 0 {
                ContractError::InvalidFee(FeeError::ZeroDenominator)
            } else {
                ContractError::InvalidFee(FeeError::AboveOne)
            }),
    {
        match self.assert_owner(predecessor) {
            Err(e) => {
                return Err(e);
            },
            Ok(()) => {},
        }
        match premium_referral_fee.assert_valid() {
            Err(e) => {
                return Err(ContractError::InvalidFee(e));
            },
            Ok(()) => {},
        }
        self.premium_referral_fee = premium_referral_fee;
        Ok(())
    }

    /// Puts a subscription into the catalog, in place of an earlier one of
    /// that name, and returns the write that publishes it. Only the owner
    /// may.
    pub fn add_subscription(
        &mut self,
        predecessor: &String,
        name: String,
        title: String,
        description: String,
        image_url: String,
        price: u128,
        price_wholesale: u128,
    ) -> (r: Result<WriteRequest, ContractError>)
        ensures
            ({
                let subscription = Subscription {
                    title,
                    description,
                    image_url,
                    price,
                    price_wholesale,
                };
                match r {
                    Ok(write) => {
                        &&& predecessor@ == old(self)@.owner_id
                        &&& final(self)@ == (State {
                            subscriptions: old(self)@.subscriptions.insert(
                                name@,
                                VSubscription::Current(subscription),
                            ),
                            ..old(self)@
                        })
                        &&& commits_metadata(write.data, name@, subscription)
                        &&& write.standard()
                    },
                    Err(e) => {
                        &&& predecessor@ != old(self)@.owner_id
                        &&& e == ContractError::NoAccess
                        &&& *final(self) == *old(self)
                    },
                }
            }),
    {
        match self.assert_owner(predecessor) {
            Err(e) => {
                return Err(e);
            },
            Ok(()) => {},
        }
        let subscription = Subscription { title, description, image_url, price, price_wholesale };
        let data = metadata_payload(name.clone(), &subscription);
        self.subscriptions.insert(name, VSubscription::Current(subscription));
        Ok(WriteRequest::new(data))
    }

    /// The write that publishes the catalog entry of a subscription, or
    /// `None` where the catalog has none of that name.
    pub fn internal_set_subscription(&self, subscription_name: String) -> (r: Option<WriteRequest>)
        ensures
            match r {
                Some(write) => {
                    &&& self@.subscriptions.contains_key(subscription_name@)
                    &&& commits_metadata(
                        write.data,
                        subscription_name@,
                        self@.subscriptions[subscription_name@]->Current_0,
                    )
                    &&& write.standard()
                },
                None => !self@.subscriptions.contains_key(subscription_name@),
            },
    {
        match self.internal_get_subscription(&subscription_name) {
            Some(subscription) => Some(
                WriteRequest::new(metadata_payload(subscription_name, subscription)),
            ),
            None => None,
        }
    }

    /// The catalog entry of a subscription, for readers.
    pub fn get_subscription(&self, name: &String) -> (r: Option<SubscriptionOutput>)
        ensures
            match r {
                Some(output) => {
                    &&& self@.subscriptions.contains_key(name@)
                    &&& output.title@ == self@.subscriptions[name@]->Current_0.title@
                    &&& output.description@ == self@.subscriptions[name@]->Current_0.description@
                    &&& output.image_url@ == self@.subscriptions[name@]->Current_0.image_url@
                    &&& output.price == self@.subscriptions[name@]->Current_0.price
                    &&& output.price_wholesale
                        == self@.subscriptions[name@]->Current_0.price_wholesale
                },
                None => !self@.subscriptions.contains_key(name@),
            },
    {
        match self.internal_get_subscription(name) {
            Some(subscription) => Some(
                SubscriptionOutput {
                    title: subscription.title.clone(),
                    description: subscription.description.clone(),
                    image_url: subscription.image_url.clone(),
                    price: subscription.price,
                    price_wholesale: subscription.price_wholesale,
                },
            ),
            None => None,
        }
    }

    /// Everything ever paid to a referral; zero for one that was never paid.
    pub fn get_referral_reward(&self, referral_account_id: &String) -> (r: u128)
        ensures
            r == if self@.referral_rewards.contains_key(referral_account_id@) {
                self@.referral_rewards[referral_account_id@]
            } else {
                0
            },
    {
        match self.referral_rewards.get(referral_account_id) {
            Some(paid) => *paid,
            None => 0,
        }
    }

    /// Everything ever paid to referrals.
    pub fn get_total_referral_rewards(&self) -> (r: u128)
        ensures
            r == self@.total_referral_rewards,
    {
        self.total_referral_rewards
    }

    /// The accounts whose last credited referral is `referral_account_id`,
    /// each once.
    pub fn get_affiliates(&self, referral_account_id: &String) -> (r: Vec<String>)
        ensures
            forall|i: int|
                0 <= i < r@.len() ==> self@.referrals.contains_key(#[trigger] r@[i]@)
                    && self@.referrals[r@[i]@] == referral_account_id@,
            forall|k: Seq<char>|
                #[trigger] self@.referrals.contains_key(k) && self@.referrals[k]
                    == referral_account_id@ ==> exists|i: int|
                    0 <= i < r@.len() && #[trigger] r@[i]@ == k,
            forall|i: int, j: int| 0 <= i < j < r@.len() ==> r@[i]@ != r@[j]@,
    {
        let keys = self.referrals.keys();
        let mut out: Vec<String> = Vec::new();
        let ghost mut at: Seq<int> = Seq::empty();
        let mut i: usize = 0;
        while i < keys.len()
            invariant
                i <= keys@.len(),
                at.len() == out@.len(),
                forall|k: Seq<char>|
                    self@.referrals.contains_key(k) <==> exists|i: int|
                        0 <= i < keys@.len() && #[trigger] keys@[i]@ == k,
                forall|a: int|
                    0 <= a < at.len() ==> 0 <= #[trigger] at[a] < i && out@[a]@ == keys@[at[a]]@
                        && self@.referrals[keys@[at[a]]@] == referral_account_id@,
                forall|a: int, b: int| 0 <= a < b < at.len() ==> at[a] < at[b],
                forall|j: int|
                    0 <= j < i && self@.referrals[#[trigger] keys@[j]@] == referral_account_id@
                        ==> exists|a: int| 0 <= a < at.len() && at[a] == j,
            decreases keys@.len() - i,
        {
            let credited: bool = match self.referrals.get(&keys[i]) {
                Some(referral) => *referral == *referral_account_id,
                None => false,
            };
            if credited {
                let ghost before = at;
                out.push(keys[i].clone());
                proof {
                    at = at.push(i as int);
                    assert forall|j: int|
                        0 <= j < i + 1 && self@.referrals[#[trigger] keys@[j]@]
                            == referral_account_id@ implies exists|a: int|
                        0 <= a < at.len() && at[a] == j by {
                        if j < i {
                            let a = choose|a: int| 0 <= a < before.len() && before[a] == j;
                            assert(at[a] == j);
                        } else {
                            assert(at[before.len() as int] == j);
                        }
                    }
                }
            } else {
                assert(self@.referrals.contains_key(keys@[i as int]@));
            }
            i += 1;
        }
        proof {
            assert forall|k: Seq<char>|
                #[trigger] self@.referrals.contains_key(k) && self@.referrals[k]
                    == referral_account_id@ implies exists|i: int|
                0 <= i < out@.len() && #[trigger] out@[i]@ == k by {
                let j = choose|j: int| 0 <= j < keys@.len() && #[trigger] keys@[j]@ == k;
                assert(self@.referrals[keys@[j]@] == referral_account_id@);
                let a = choose|a: int| 0 <= a < at.len() && at[a] == j;
                assert(out@[a]@ == k);
            }
            assert forall|a: int| 0 <= a < out@.len() implies self@.referrals.contains_key(
                #[trigger] out@[a]@,
            ) && self@.referrals[out@[a]@] == referral_account_id@ by {
                assert(0 <= at[a] < keys@.len());
                assert(keys@[at[a]]@ == out@[a]@);
            }
            assert forall|a: int, b: int| 0 <= a < b < out@.len() implies out@[a]@ != out@[b]@ by {
                assert(at[a] < at[b]);
                assert(out@[a]@ == keys@[at[a]]@);
                assert(out@[b]@ == keys@[at[b]]@);
            }
        }
        out
    }

    /// Deposits that the engine has kept.
    pub fn get_deposits(&self) -> (r: u128)
        ensures
            r == self@.deposits,
    {
        self.deposits
    }

    /// Number of settlements made.
    pub fn get_operations(&self) -> (r: u64)
        ensures
            r == self@.operations,
    {
        self.operations
    }

    /// The height at which an account was claimed, while its lock is held.
    pub fn get_lock(&self, account_id: &String) -> (r: Option<u64>)
        ensures
            r == if self@.account_locks.contains_key(account_id@) {
                Some(self@.account_locks[account_id@])
            } else {
                None::<u64>
            },
    {
        match self.account_locks.get(account_id) {
            Some(height) => Some(*height),
            None => None,
        }
    }

    /// The referral last credited for an account.
    pub fn get_referral_id(&self, account_id: &String) -> (r: Option<String>)
        ensures
            match r {
                Some(referral) => self@.referrals.contains_key(account_id@)
                    && self@.referrals[account_id@] == referral@,
                None => !self@.referrals.contains_key(account_id@),
            },
    {
        match self.referrals.get(account_id) {
            Some(referral) => Some(referral.clone()),
            None => None,
        }
    }

    /// The rate paid to referrals.
    pub fn get_referral_fee(&self) -> (r: FeeFraction)
        ensures
            r == self@.referral_fee,
    {
        self.referral_fee
    }

    /// The rate paid to referrals whose own entitlement is running.
    pub fn get_premium_referral_fee(&self) -> (r: FeeFraction)
        ensures
            r == self@.premium_referral_fee,
    {
        self.premium_referral_fee
    }

    /// Takes `amount` out of the kept deposits, for the named destination or
    /// the treasury. Only the owner may, and no more than was kept.
    pub fn withdraw_deposits(
        &mut self,
        predecessor: &String,
        amount: u128,
        destination_account_id: Option<String>,
    ) -> (r: Result<Withdrawal, ContractError>)
        ensures
            match r {
                Ok(withdrawal) => {
                    &&& predecessor@ == old(self)@.owner_id
                    &&& old(self)@.deposits >= amount
                    &&& final(self)@ == (State {
                        deposits: (old(self)@.deposits - amount) as u128,
                        ..old(self)@
                    })
                    &&& withdrawal.amount == amount
                    &&& withdrawal.destination_account_id@ == match destination_account_id {
                        Some(destination) => destination@,
                        None => SOCIAL_PREMIUM_TREASURY_ACCOUNT_ID@,
                    }
                },
                Err(e) => {
                    &&& e == (if predecessor@ != old(self)@.owner_id {
                        ContractError::NoAccess
                    } else {
                        ContractError::NotEnoughDeposits
                    })
                    &&& predecessor@ != old(self)@.owner_id || old(self)@.deposits < amount
                    &&& *final(self) == *old(self)
                },
            },
    {
        match self.assert_owner(predecessor) {
            Err(e) => {
                return Err(e);
            },
            Ok(()) => {},
        }
        if self.deposits < amount {
            return Err(ContractError::NotEnoughDeposits);
        }
        self.deposits = self.deposits - amount;
        let destination_account_id: String = match destination_account_id {
            Some(destination) => destination,
            None => String::from_str(SOCIAL_PREMIUM_TREASURY_ACCOUNT_ID),
        };
        Ok(Withdrawal { destination_account_id, amount })
    }

    /// The period in milliseconds that `amount` buys of a subscription.
    ///
    /// The applicable price must not be zero, and the period must fit in 128
    /// bits; [`Subscription::purchased_period`] tests both.
    pub fn get_subscription_purchased_period_ms(&self, subscription: &Subscription, amount: u128) -> (r:
        u128)
        requires
            subscription.applicable_price(amount) != 0,
            subscription.period(amount) <= u128::MAX,
        ensures
            r == subscription.period(amount),
    {
        match subscription.purchased_period(amount) {
            Ok(period) => period,
            Err(_) => 0,
        }
    }

    /// The period in milliseconds that `amount` buys of the subscription
    /// `name`, or the reason why there is none.
    pub fn get_purchase_ms(&self, name: &String, amount: u128) -> (r: Result<u128, SettlementError>)
        ensures
            r == if !self@.subscriptions.contains_key(name@) {
                Err::<u128, SettlementError>(SettlementError::SubscriptionNotFound)
            } else if self@.subscriptions[name@]->Current_0.applicable_price(amount) == 0 {
                Err::<u128, SettlementError>(SettlementError::ZeroPrice)
            } else if self@.subscriptions[name@]->Current_0.period(amount) > u128::MAX {
                Err::<u128, SettlementError>(SettlementError::Overflow)
            } else {
                Ok::<u128, SettlementError>(
                    self@.subscriptions[name@]->Current_0.period(amount) as u128,
                )
            },
    {
        match self.internal_get_subscription(name) {
            None => Err(SettlementError::SubscriptionNotFound),
            Some(subscription) => match subscription.purchased_period(amount) {
                Ok(period) => Ok(period),
                Err(PeriodError::ZeroPrice) => Err(SettlementError::ZeroPrice),
                Err(PeriodError::Overflow) => Err(SettlementError::Overflow),
            },
        }
    }

    /// Upgrades a state persisted without the referral ledger.
    ///
    /// Owner, catalog, locks and counters are kept as they are; nothing is
    /// attributed and nothing was paid yet. Both fees must be rates; the
    /// referral fee is tested first.
    pub fn migrate(
        old_contract: OldContract,
        referral_fee: FeeFraction,
        premium_referral_fee: FeeFraction,
    ) -> (r: Result<SocialPremium, FeeError>)
        ensures
            r is Ok <==> referral_fee.valid() && premium_referral_fee.valid(),
            r is Ok ==> {
                &&& r->Ok_0@.well_formed()
                &&& r->Ok_0@.balanced()
                &&& r->Ok_0.owner_id == old_contract.owner_id
                &&& r->Ok_0.subscriptions == old_contract.subscriptions
                &&& r->Ok_0.account_locks == old_contract.account_locks
                &&& r->Ok_0@ == (State {
                    owner_id: old_contract.owner_id@,
                    subscriptions: old_contract.subscriptions@,
                    account_locks: old_contract.account_locks@,
                    deposits: old_contract.deposits,
                    operations: old_contract.operations,
                    referrals: Map::empty(),
                    referral_fee,
                    premium_referral_fee,
                    referral_rewards: Map::empty(),
                    total_referral_rewards: 0,
                })
            },
            r is Err ==> r->Err_0 == (if !referral_fee.valid() {
                if referral_fee.denominator == 0 {
                    FeeError::ZeroDenominator
                } else {
                    FeeError::AboveOne
                }
            } else if premium_referral_fee.denominator == 0 {
                FeeError::ZeroDenominator
            } else {
                FeeError::AboveOne
            }),
    {
        match referral_fee.assert_valid() {
            Err(e) => {
                return Err(e);
            },
            Ok(()) => {},
        }
        match premium_referral_fee.assert_valid() {
            Err(e) => {
                return Err(e);
            },
            Ok(()) => {},
        }
        let r = SocialPremium {
            owner_id: old_contract.owner_id,
            subscriptions: old_contract.subscriptions,
            account_locks: old_contract.account_locks,
            deposits: old_contract.deposits,
            operations: old_contract.operations,
            referrals: StrMap::new(),
            referral_fee,
            premium_referral_fee,
            referral_rewards: StrMap::new(),
            total_referral_rewards: 0,
        };
        assert(r@.referrals =~= Map::empty());
        proof {
            lemma_ledger_sum_empty();
        }
        Ok(r)
    }
}

} // verus!
