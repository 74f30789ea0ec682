//! The settlement steps: what a purchase and a transfer do once the data
//! store has answered.

use vstd::prelude::*;
use vstd::string::*;
use crate::contract::texts;
use crate::contract::SocialPremium;
use crate::contract::State;
use crate::decimal::decimal_text;
use crate::json::Value;
use crate::ledger::lemma_ledger_sum_insert;
use crate::settlement::commits_records;
use crate::settlement::internal_set_subscription_holder;
use crate::settlement::lemma_timestamps_one;
use crate::settlement::lemma_timestamps_two;
use crate::settlement::new_expiry;
use crate::settlement::purchase_expiry;
use crate::settlement::receiver_expiry;
use crate::settlement::transfer_expiry;
use crate::settlement::SubscriptionData;
use crate::settlement::WriteRequest;
use crate::social::purchase_reading;
use crate::social::read_purchase;
use crate::social::read_transfer;
use crate::social::text_of;
use crate::social::transfer_reading;
use crate::social::PromiseError;
use crate::social::PurchaseReading;
use crate::social::SettlementError;
use crate::social::TransferReading;
use crate::subscription::PeriodError;
use crate::subscription::Subscription;
use crate::subscription::VSubscription;
use crate::subscription::YEAR_IN_MS;
use crate::utils::lemma_higher_rate_not_less;
use crate::utils::lemma_premium_pays_more;
use crate::utils::lemma_share_within_value;
use crate::utils::FeeFraction;

verus! {

/// How a settlement step ended without aborting.
#[derive(Debug)]
pub enum Outcome<T> {
    /// The read had failed: nothing was credited and nothing changed.
    Dropped,
    /// The settlement was made; these are the actions to carry out.
    Settled(T),
}

/// A payment to a referral, to be made with the settlement.
#[derive(Debug)]
pub struct RewardTransfer {
    pub account_id: String,
    pub amount: u128,
    /// Whether the premium rate was paid.
    pub premium: bool,
}

/// What a settled purchase asks for: the reward to pay, if there is a
/// referral, and the write to make.
#[derive(Debug)]
pub struct PurchaseSettlement {
    pub reward: Option<RewardTransfer>,
    /// The new end of the receiver's entitlement.
    pub timestamp: u128,
    /// The write that commits the settlement.
    pub write: WriteRequest,
}

/// What a settled transfer asks for: the write to make.
#[derive(Debug)]
pub struct TransferSettlement {
    /// The new end of the sender's entitlement: the time of the settlement.
    pub sender_timestamp: u128,
    /// The new end of the receiver's entitlement.
    pub receiver_timestamp: u128,
    /// The write that commits the settlement.
    pub write: WriteRequest,
}

/// What a purchase does to the state, the reward it pays and the end of the
/// entitlement it gives.
pub struct PurchaseEffect {
    pub state: State,
    pub reward: Option<u128>,
    pub timestamp: u128,
}

/// The reward on `amount`, at the premium or the standard rate; `None` where
/// the rate has no denominator or the reward leaves 128 bits.
pub open spec fn reward_amount(state: State, premium: bool, amount: u128) -> Option<u128> {
    let fee = if premium {
        state.premium_referral_fee
    } else {
        state.referral_fee
    };
    if fee.denominator != 0 && fee.product(amount) <= u128::MAX {
        Some(fee.product(amount) as u128)
    } else {
        None
    }
}

/// Everything paid to a referral so far.
pub open spec fn ledger_entry(state: State, referral: Seq<char>) -> u128 {
    if state.referral_rewards.contains_key(referral) {
        state.referral_rewards[referral]
    } else {
        0
    }
}

/// The state after a reward: the referral is attributed to the receiver, and
/// the reward is added to the referral's ledger entry and to the total.
pub open spec fn credited(state: State, receiver: Seq<char>, referral: Seq<char>, reward: u128) -> State {
    State {
        referrals: state.referrals.insert(receiver, referral),
        referral_rewards: state.referral_rewards.insert(
            referral,
            (ledger_entry(state, referral) + reward) as u128,
        ),
        total_referral_rewards: (state.total_referral_rewards + reward) as u128,
        ..state
    }
}

/// The settlement of a purchase, from the state and the reading.
///
/// With a referral, the reward is computed and credited first. The
/// subscription is then priced as the catalog has it at this moment, the
/// purchased period is added to `now` and to what was left of an earlier
/// entitlement, and the deposit and the operation are counted.
pub open spec fn purchase_effect(
    state: State,
    reading: PurchaseReading,
    receiver: Seq<char>,
    name: Seq<char>,
    amount: u128,
    referral: Option<Seq<char>>,
    now: u128,
) -> Result<PurchaseEffect, SettlementError> {
    let reward = match referral {
        Some(r) => reward_amount(state, reading.referral_is_premium, amount),
        None => None,
    };
    if referral is Some && (reward is None || ledger_entry(state, referral->0) + reward->0
        > u128::MAX || state.total_referral_rewards + reward->0 > u128::MAX) {
        Err(SettlementError::Overflow)
    } else if !state.subscriptions.contains_key(name) {
        Err(SettlementError::SubscriptionNotFound)
    } else {
        let subscription = state.subscriptions[name]->Current_0;
        let expiry = purchase_expiry(
            now as int,
            reading.paid_until as int,
            subscription.period(amount),
        );
        if subscription.applicable_price(amount) == 0 {
            Err(SettlementError::ZeroPrice)
        } else if subscription.period(amount) > u128::MAX || expiry > u128::MAX || state.deposits
            + amount > u128::MAX || state.operations + 1 > u64::MAX {
            Err(SettlementError::Overflow)
        } else {
            let base = match referral {
                Some(r) => credited(state, receiver, r, reward->0),
                None => state,
            };
            Ok(
                PurchaseEffect {
                    state: State {
                        deposits: (state.deposits + amount) as u128,
                        operations: (state.operations + 1) as u64,
                        ..base
                    },
                    reward,
                    timestamp: expiry as u128,
                },
            )
        }
    }
}

/// Whether the actions of a settled purchase are those of `effect`: the
/// reward goes to the referral, and the payload commits the receiver's new
/// timestamp and nothing else.
pub open spec fn purchase_actions(
    settlement: PurchaseSettlement,
    effect: PurchaseEffect,
    reading: PurchaseReading,
    receiver: Seq<char>,
    name: Seq<char>,
    referral: Option<Seq<char>>,
) -> bool {
    &&& settlement.timestamp == effect.timestamp
    &&& settlement.write.standard()
    &&& match settlement.reward {
        Some(transfer) => {
            &&& referral == Some(transfer.account_id@)
            &&& effect.reward == Some(transfer.amount)
            &&& transfer.premium == reading.referral_is_premium
        },
        None => referral is None,
    }
    &&& commits_records(
        settlement.write.data,
        name,
        Map::<Seq<char>, Seq<char>>::empty().insert(
            receiver,
            decimal_text(effect.timestamp as nat),
        ),
    )
}

/// The settlement of a transfer: the end of the receiver's entitlement and
/// the state with the operation counted. A sender whose entitlement does not
/// lie after `now` has nothing to transfer.
pub open spec fn transfer_effect(state: State, reading: TransferReading, now: u128) -> Result<
    (State, u128),
    SettlementError,
> {
    let expiry = transfer_expiry(
        now as int,
        reading.sender_paid_until as int,
        reading.receiver_paid_until as int,
    );
    if reading.sender_paid_until <= now {
        Err(SettlementError::SenderSubscriptionNotFound)
    } else if expiry > u128::MAX || state.operations + 1 > u64::MAX {
        Err(SettlementError::Overflow)
    } else {
        Ok((State { operations: (state.operations + 1) as u64, ..state }, expiry as u128))
    }
}

/// Whether the actions of a settled transfer are those of the effect: the
/// sender's record is set to `now`, then the receiver's to its new end.
pub open spec fn transfer_actions(
    settlement: TransferSettlement,
    receiver_timestamp: u128,
    sender: Seq<char>,
    receiver: Seq<char>,
    name: Seq<char>,
    now: u128,
) -> bool {
    &&& settlement.sender_timestamp == now
    &&& settlement.write.standard()
    &&& settlement.receiver_timestamp == receiver_timestamp
    &&& commits_records(
        settlement.write.data,
        name,
        Map::<Seq<char>, Seq<char>>::empty().insert(sender, decimal_text(now as nat)).insert(
            receiver,
            decimal_text(receiver_timestamp as nat),
        ),
    )
}

/// With fees that are rates, a reward can always be computed and never
/// exceeds the amount it is taken of.
pub proof fn lemma_reward_within_amount(state: State, premium: bool, amount: u128)
    requires
        state.well_formed(),
    ensures
        reward_amount(state, premium, amount) is Some,
        reward_amount(state, premium, amount)->0 <= amount,
{
    if premium {
        lemma_share_within_value(state.premium_referral_fee, amount);
    } else {
        lemma_share_within_value(state.referral_fee, amount);
    }
}

/// Where the premium rate is above the standard rate by at least one unit
/// on `amount`, a premium referral is paid strictly more than a standard
/// one on the same purchase; it is never paid less while the premium rate is
/// not below the standard rate.
pub proof fn lemma_premium_referral_earns_more(state: State, amount: u128)
    requires
        state.well_formed(),
        state.premium_referral_fee.numerator * state.referral_fee.denominator
            >= state.referral_fee.numerator * state.premium_referral_fee.denominator,
    ensures
        reward_amount(state, true, amount)->0 >= reward_amount(state, false, amount)->0,
        amount * (state.premium_referral_fee.numerator * state.referral_fee.denominator
            - state.referral_fee.numerator * state.premium_referral_fee.denominator)
            >= state.premium_referral_fee.denominator * state.referral_fee.denominator
            ==> reward_amount(state, true, amount)->0 > reward_amount(state, false, amount)->0,
{
    lemma_reward_within_amount(state, true, amount);
    lemma_reward_within_amount(state, false, amount);
    lemma_higher_rate_not_less(state.referral_fee, state.premium_referral_fee, amount);
    if amount * (state.premium_referral_fee.numerator * state.referral_fee.denominator
        - state.referral_fee.numerator * state.premium_referral_fee.denominator)
        >= state.premium_referral_fee.denominator * state.referral_fee.denominator {
        lemma_premium_pays_more(state.referral_fee, state.premium_referral_fee, amount);
    }
}

/// A settled purchase takes nothing back: no ledger entry, the total of the
/// rewards, the kept deposits and the count of operations never decrease.
/// The entry of the referral and the total grow by exactly the reward, and
/// every other entry stays as it is. The fees are not touched.
pub proof fn lemma_purchase_only_adds(
    state: State,
    reading: PurchaseReading,
    receiver: Seq<char>,
    name: Seq<char>,
    amount: u128,
    referral: Option<Seq<char>>,
    now: u128,
    other: Seq<char>,
)
    requires
        purchase_effect(state, reading, receiver, name, amount, referral, now) is Ok,
    ensures
        ({
            let effect = purchase_effect(state, reading, receiver, name, amount, referral, now)->Ok_0;
            &&& ledger_entry(effect.state, other) >= ledger_entry(state, other)
            &&& referral != Some(other) ==> ledger_entry(effect.state, other) == ledger_entry(
                state,
                other,
            )
            &&& effect.state.referral_fee == state.referral_fee
            &&& effect.state.premium_referral_fee == state.premium_referral_fee
            &&& effect.state.well_formed() == state.well_formed()
            &&& effect.state.total_referral_rewards >= state.total_referral_rewards
            &&& effect.state.deposits == state.deposits + amount
            &&& effect.state.operations == state.operations + 1
            &&& referral is Some ==> {
                &&& effect.reward is Some
                &&& ledger_entry(effect.state, referral->0) == ledger_entry(state, referral->0)
                    + effect.reward->0
                &&& effect.state.total_referral_rewards == state.total_referral_rewards
                    + effect.reward->0
                &&& effect.state.referrals.contains_key(receiver)
                &&& effect.state.referrals[receiver] == referral->0
            }
            &&& referral is None ==> {
                &&& effect.reward is None
                &&& effect.state.referral_rewards == state.referral_rewards
                &&& effect.state.total_referral_rewards == state.total_referral_rewards
                &&& effect.state.referrals == state.referrals
            }
        }),
{
}

/// A settled purchase entitles at least until the purchased period is over,
/// counted from `now`, and exactly until then when the receiver had nothing
/// left of an earlier entitlement. It never shortens an entitlement.
pub proof fn lemma_settled_purchase_expiry(
    state: State,
    reading: PurchaseReading,
    receiver: Seq<char>,
    name: Seq<char>,
    amount: u128,
    referral: Option<Seq<char>>,
    now: u128,
)
    requires
        purchase_effect(state, reading, receiver, name, amount, referral, now) is Ok,
    ensures
        ({
            let effect = purchase_effect(state, reading, receiver, name, amount, referral, now)->Ok_0;
            let period = state.subscriptions[name]->Current_0.period(amount);
            &&& period >= 0
            &&& effect.timestamp >= now + period
            &&& effect.timestamp >= reading.paid_until
            &&& effect.timestamp == now + period <==> reading.paid_until <= now
        }),
{
    let subscription = state.subscriptions[name]->Current_0;
    let price = subscription.applicable_price(amount);
    assert(amount * YEAR_IN_MS >= 0) by (nonlinear_arith);
    vstd::arithmetic::div_mod::lemma_div_pos_is_pos(amount * YEAR_IN_MS, price as int);
}

/// A settled purchase keeps the total of the rewards equal to the sum of the
/// ledger.
pub proof fn lemma_purchase_keeps_balance(
    state: State,
    reading: PurchaseReading,
    receiver: Seq<char>,
    name: Seq<char>,
    amount: u128,
    referral: Option<Seq<char>>,
    now: u128,
)
    requires
        state.balanced(),
        purchase_effect(state, reading, receiver, name, amount, referral, now) is Ok,
    ensures
        purchase_effect(state, reading, receiver, name, amount, referral, now)->Ok_0.state.balanced(),
{
    if referral is Some {
        let reward = reward_amount(state, reading.referral_is_premium, amount)->0;
        lemma_ledger_sum_insert(
            state.referral_rewards,
            referral->0,
            (ledger_entry(state, referral->0) + reward) as u128,
        );
    }
}

/// A settled transfer touches neither the ledger nor the fees nor the kept
/// deposits: it counts one operation.
pub proof fn lemma_transfer_only_counts(state: State, reading: TransferReading, now: u128)
    requires
        transfer_effect(state, reading, now) is Ok,
    ensures
        transfer_effect(state, reading, now)->Ok_0.0 == (State {
            operations: (state.operations + 1) as u64,
            ..state
        }),
        transfer_effect(state, reading, now)->Ok_0.0.balanced() == state.balanced(),
        transfer_effect(state, reading, now)->Ok_0.0.well_formed() == state.well_formed(),
        reading.sender_paid_until - now == transfer_effect(state, reading, now)->Ok_0.1 - (
        if reading.receiver_paid_until > now {
            reading.receiver_paid_until
        } else {
            now
        }),
{
}

impl SocialPremium {
    /// The catalog entry of a subscription.
    pub fn internal_get_subscription(&self, subscription_name: &String) -> (r: Option<
        &Subscription,
    >)
        ensures
            match r {
                Some(s) => self@.subscriptions.contains_key(subscription_name@)
                    && self@.subscriptions[subscription_name@] == VSubscription::Current(*s),
                None => !self@.subscriptions.contains_key(subscription_name@),
            },
    {
        match self.subscriptions.get(subscription_name) {
            Some(VSubscription::Current(subscription)) => Some(subscription),
            None => None,
        }
    }

    /// Settles a purchase from what was read.
    ///
    /// On success the state is the one that [`purchase_effect`] gives and the
    /// actions are those of [`purchase_actions`]. An abort changes nothing.
    pub fn settle_purchase(
        &mut self,
        reading: PurchaseReading,
        receiver_id: String,
        subscription_name: String,
        amount: u128,
        referral_account_id: Option<String>,
        now: u128,
    ) -> (r: Result<PurchaseSettlement, SettlementError>)
        ensures
            ({
                let effect = purchase_effect(
                    old(self)@,
                    reading,
                    receiver_id@,
                    subscription_name@,
                    amount,
                    text_of(referral_account_id),
                    now,
                );
                match r {
                    Ok(settlement) => {
                        &&& effect is Ok
                        &&& final(self)@ == effect->Ok_0.state
                        &&& purchase_actions(
                            settlement,
                            effect->Ok_0,
                            reading,
                            receiver_id@,
                            subscription_name@,
                            text_of(referral_account_id),
                        )
                    },
                    Err(e) => effect == Err::<PurchaseEffect, SettlementError>(e) && *final(self)
                        == *old(self),
                }
            }),
            old(self)@.balanced() ==> final(self)@.balanced(),
    {
        proof {
            let effect = purchase_effect(
                self@,
                reading,
                receiver_id@,
                subscription_name@,
                amount,
                text_of(referral_account_id),
                now,
            );
            if self@.balanced() && effect is Ok {
                lemma_purchase_keeps_balance(
                    self@,
                    reading,
                    receiver_id@,
                    subscription_name@,
                    amount,
                    text_of(referral_account_id),
                    now,
                );
            }
        }
        let mut reward: u128 = 0;
        let mut ledger: u128 = 0;
        let mut total: u128 = self.total_referral_rewards;
        match &referral_account_id {
            Some(referral) => {
                let fee: FeeFraction = if reading.referral_is_premium {
                    self.premium_referral_fee
                } else {
                    self.referral_fee
                };
                reward =
                match fee.checked_multiply(amount) {
                    Some(share) => share,
                    None => {
                        return Err(SettlementError::Overflow);
                    },
                };
                let previous: u128 = match self.referral_rewards.get(referral) {
                    Some(paid) => *paid,
                    None => 0,
                };
                ledger =
                match previous.checked_add(reward) {
                    Some(sum) => sum,
                    None => {
                        return Err(SettlementError::Overflow);
                    },
                };
                total =
                match self.total_referral_rewards.checked_add(reward) {
                    Some(sum) => sum,
                    None => {
                        return Err(SettlementError::Overflow);
                    },
                };
            },
            None => {},
        }
        let period: u128 = match self.internal_get_subscription(&subscription_name) {
            None => {
                return Err(SettlementError::SubscriptionNotFound);
            },
            Some(subscription) => match subscription.purchased_period(amount) {
                Ok(period) => period,
                Err(PeriodError::ZeroPrice) => {
                    return Err(SettlementError::ZeroPrice);
                },
                Err(PeriodError::Overflow) => {
                    return Err(SettlementError::Overflow);
                },
            },
        };
        let timestamp: u128 = match new_expiry(now, reading.paid_until, period) {
            Some(timestamp) => timestamp,
            None => {
                return Err(SettlementError::Overflow);
            },
        };
        let deposits: u128 = match self.deposits.checked_add(amount) {
            Some(sum) => sum,
            None => {
                return Err(SettlementError::Overflow);
            },
        };
        let operations: u64 = match self.operations.checked_add(1) {
            Some(sum) => sum,
            None => {
                return Err(SettlementError::Overflow);
            },
        };
        let transfer: Option<RewardTransfer> = match referral_account_id {
            Some(referral) => {
                self.referrals.insert(receiver_id.clone(), referral.clone());
                self.referral_rewards.insert(referral.clone(), ledger);
                self.total_referral_rewards = total;
                proof {
                    assert(texts(self.referrals@) =~= texts(old(self).referrals@).insert(
                        receiver_id@,
                        referral@,
                    ));
                }
                Some(
                    RewardTransfer {
                        account_id: referral,
                        amount: reward,
                        premium: reading.referral_is_premium,
                    },
                )
            },
            None => None,
        };
        self.deposits = deposits;
        self.operations = operations;
        let updates: Vec<SubscriptionData> = vec![SubscriptionData { receiver_id, timestamp }];
        proof {
            lemma_timestamps_one(updates@);
        }
        let write = internal_set_subscription_holder(&subscription_name, updates);
        Ok(PurchaseSettlement { reward: transfer, timestamp, write })
    }

    /// The step of a purchase that follows the read.
    ///
    /// A failed read drops the purchase: nothing is credited and nothing
    /// changes. An answer is read as [`purchase_reading`] says and settled as
    /// [`purchase_effect`] says; where either aborts, nothing changes.
    pub fn purchase_after_social_get(
        &mut self,
        value: Result<Value, PromiseError>,
        receiver_id: String,
        subscription_name: String,
        amount: u128,
        referral_account_id: Option<String>,
        now: u128,
    ) -> (r: Result<Outcome<PurchaseSettlement>, SettlementError>)
        ensures
            match value {
                Err(_) => r is Ok && r->Ok_0 is Dropped && *final(self) == *old(self),
                Ok(answer) => match purchase_reading(
                    answer,
                    subscription_name@,
                    receiver_id@,
                    text_of(referral_account_id),
                    now,
                ) {
                    Err(e) => r == Err::<Outcome<PurchaseSettlement>, SettlementError>(e)
                        && *final(self) == *old(self),
                    Ok(reading) => {
                        let effect = purchase_effect(
                            old(self)@,
                            reading,
                            receiver_id@,
                            subscription_name@,
                            amount,
                            text_of(referral_account_id),
                            now,
                        );
                        match r {
                            Ok(outcome) => {
                                &&& effect is Ok
                                &&& outcome is Settled
                                &&& final(self)@ == effect->Ok_0.state
                                &&& purchase_actions(
                                    outcome->Settled_0,
                                    effect->Ok_0,
                                    reading,
                                    receiver_id@,
                                    subscription_name@,
                                    text_of(referral_account_id),
                                )
                            },
                            Err(e) => effect == Err::<PurchaseEffect, SettlementError>(e)
                                && *final(self) == *old(self),
                        }
                    },
                },
            },
            old(self)@.balanced() ==> final(self)@.balanced(),
    {
        let answer = match value {
            Ok(answer) => answer,
            Err(_) => {
                return Ok(Outcome::Dropped);
            },
        };
        let reading = match read_purchase(
            &answer,
            &subscription_name,
            &receiver_id,
            &referral_account_id,
            now,
        ) {
            Ok(reading) => reading,
            Err(e) => {
                return Err(e);
            },
        };
        match self.settle_purchase(
            reading,
            receiver_id,
            subscription_name,
            amount,
            referral_account_id,
            now,
        ) {
            Ok(settlement) => Ok(Outcome::Settled(settlement)),
            Err(e) => Err(e),
        }
    }

    /// Settles a transfer from what was read.
    ///
    /// The sender's entitlement ends at `now`; what was left of it is added
    /// to the later of `now` and the end of the receiver's. An abort changes
    /// nothing.
    pub fn settle_transfer(
        &mut self,
        reading: TransferReading,
        sender_id: String,
        receiver_id: String,
        subscription_name: String,
        now: u128,
    ) -> (r: Result<TransferSettlement, SettlementError>)
        ensures
            ({
                let effect = transfer_effect(old(self)@, reading, now);
                match r {
                    Ok(settlement) => {
                        &&& effect is Ok
                        &&& final(self)@ == effect->Ok_0.0
                        &&& transfer_actions(
                            settlement,
                            effect->Ok_0.1,
                            sender_id@,
                            receiver_id@,
                            subscription_name@,
                            now,
                        )
                    },
                    Err(e) => effect == Err::<(State, u128), SettlementError>(e) && *final(self)
                        == *old(self),
                }
            }),
    {
        if reading.sender_paid_until <= now {
            return Err(SettlementError::SenderSubscriptionNotFound);
        }
        let receiver_timestamp: u128 = match receiver_expiry(
            now,
            reading.sender_paid_until,
            reading.receiver_paid_until,
        ) {
            Some(timestamp) => timestamp,
            None => {
                return Err(SettlementError::Overflow);
            },
        };
        let operations: u64 = match self.operations.checked_add(1) {
            Some(sum) => sum,
            None => {
                return Err(SettlementError::Overflow);
            },
        };
        self.operations = operations;
        let updates: Vec<SubscriptionData> = vec![
            SubscriptionData { receiver_id: sender_id, timestamp: now },
            SubscriptionData { receiver_id, timestamp: receiver_timestamp },
        ];
        proof {
            lemma_timestamps_two(updates@);
        }
        let write = internal_set_subscription_holder(&subscription_name, updates);
        Ok(TransferSettlement { sender_timestamp: now, receiver_timestamp, write })
    }

    /// The step of a transfer that follows the read.
    ///
    /// A failed read drops the transfer. An answer is read as
    /// [`transfer_reading`] says and settled as [`transfer_effect`] says;
    /// where either aborts, nothing changes.
    pub fn transfer_after_social_get(
        &mut self,
        value: Result<Value, PromiseError>,
        sender_id: String,
        receiver_id: String,
        subscription_name: String,
        now: u128,
    ) -> (r: Result<Outcome<TransferSettlement>, SettlementError>)
        ensures
            match value {
                Err(_) => r is Ok && r->Ok_0 is Dropped && *final(self) == *old(self),
                Ok(answer) => match transfer_reading(
                    answer,
                    subscription_name@,
                    sender_id@,
                    receiver_id@,
                    now,
                ) {
                    Err(e) => r == Err::<Outcome<TransferSettlement>, SettlementError>(e)
                        && *final(self) == *old(self),
                    Ok(reading) => {
                        let effect = transfer_effect(old(self)@, reading, now);
                        match r {
                            Ok(outcome) => {
                                &&& effect is Ok
                                &&& outcome is Settled
                                &&& final(self)@ == effect->Ok_0.0
                                &&& transfer_actions(
                                    outcome->Settled_0,
                                    effect->Ok_0.1,
                                    sender_id@,
                                    receiver_id@,
                                    subscription_name@,
                                    now,
                                )
                            },
                            Err(e) => effect == Err::<(State, u128), SettlementError>(e)
                                && *final(self) == *old(self),
                        }
                    },
                },
            },
    {
        let answer = match value {
            Ok(answer) => answer,
            Err(_) => {
                return Ok(Outcome::Dropped);
            },
        };
        let reading = match read_transfer(
            &answer,
            &subscription_name,
            &sender_id,
            &receiver_id,
            now,
        ) {
            Ok(reading) => reading,
            Err(e) => {
                return Err(e);
            },
        };
        match self.settle_transfer(reading, sender_id, receiver_id, subscription_name, now) {
            Ok(settlement) => Ok(Outcome::Settled(settlement)),
            Err(e) => Err(e),
        }
    }
}

} // verus!
