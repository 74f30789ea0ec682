//! The arithmetic of a settlement and the payloads that commit it.

use vstd::prelude::*;
use vstd::string::*;
use crate::decimal::decimal_text;
use crate::decimal::format_u128;
use crate::json::lemma_texts_of_insert;
use crate::json::texts_of;
use crate::json::Value;
use crate::decimal::lemma_parse_of_text;
use crate::social::accounts_node;
use crate::social::strict_record;
use crate::social::SetOptions;
use crate::social::SettlementError;
use crate::social::DEPOSIT_FOR_SOCIAL_SET;
use crate::social::SOCIAL_PREMIUM_ACCOUNT_ID;
use crate::store::StrMap;
use crate::subscription::lemma_period_additive;
use crate::subscription::Subscription;
use crate::subscription::YEAR_IN_MS;

verus! {

/// The time that is left of an entitlement at `now`: nothing once it has run
/// out.
pub open spec fn carried_over(now: int, paid_until: int) -> int {
    if paid_until > now {
        paid_until - now
    } else {
        0
    }
}

/// Until when a purchase entitles: the purchased period counts from `now`,
/// and what was left of an earlier entitlement is added to it.
pub open spec fn purchase_expiry(now: int, paid_until: int, period: int) -> int {
    now + period + carried_over(now, paid_until)
}

/// Until when the receiver of a transfer is entitled: what the sender had
/// left, added to the later of `now` and the receiver's own entitlement.
pub open spec fn transfer_expiry(now: int, sender_paid_until: int, receiver_paid_until: int) -> int {
    (sender_paid_until - now) + if receiver_paid_until > now {
        receiver_paid_until
    } else {
        now
    }
}

/// The new end of an entitlement after a purchase, or `None` where it does
/// not fit in 128 bits.
///
/// An entitlement never ends before the purchased period is over, and ends
/// exactly then when nothing was left of an earlier one.
pub fn new_expiry(now: u128, paid_until: u128, period: u128) -> (r: Option<u128>)
    ensures
        r == if purchase_expiry(now as int, paid_until as int, period as int) <= u128::MAX {
            Some(purchase_expiry(now as int, paid_until as int, period as int) as u128)
        } else {
            None::<u128>
        },
        r is Some ==> r->0 >= now + period,
        r is Some ==> (r->0 == now + period <==> paid_until <= now),
{
    let previously_purchased: u128 = if paid_until > now {
        paid_until - now
    } else {
        0
    };
    match now.checked_add(period) {
        Some(end) => end.checked_add(previously_purchased),
        None => None,
    }
}

/// The new end of the receiver's entitlement after a transfer, or `None`
/// where it does not fit in 128 bits.
///
/// What the receiver gains over the later of `now` and the old end is
/// exactly what the sender had left.
pub fn receiver_expiry(now: u128, sender_paid_until: u128, receiver_paid_until: u128) -> (r:
    Option<u128>)
    requires
        sender_paid_until > now,
    ensures
        r == if transfer_expiry(now as int, sender_paid_until as int, receiver_paid_until as int)
            <= u128::MAX {
            Some(
                transfer_expiry(
                    now as int,
                    sender_paid_until as int,
                    receiver_paid_until as int,
                ) as u128,
            )
        } else {
            None::<u128>
        },
        r is Some ==> sender_paid_until - now == r->0 - (if receiver_paid_until > now {
            receiver_paid_until
        } else {
            now
        }),
{
    let remaining: u128 = sender_paid_until - now;
    let base: u128 = if receiver_paid_until > now {
        receiver_paid_until
    } else {
        now
    };
    remaining.checked_add(base)
}

/// A purchase never shortens an entitlement and never ends it before the
/// purchased period is over; it ends exactly with that period when nothing
/// was left of an earlier entitlement.
pub proof fn lemma_purchase_stacks(now: int, paid_until: int, period: int)
    requires
        period >= 0,
    ensures
        purchase_expiry(now, paid_until, period) >= now + period,
        purchase_expiry(now, paid_until, period) >= paid_until,
        purchase_expiry(now, paid_until, period) == now + period <==> paid_until <= now,
{
}

/// Two purchases one after the other at one instant, at one price, entitle
/// as long as one purchase of the sum, up to the millisecond that rounding
/// down can lose.
pub proof fn lemma_purchases_combine(
    subscription: Subscription,
    now: int,
    paid_until: int,
    a1: u128,
    a2: u128,
)
    requires
        a1 + a2 <= u128::MAX,
        subscription.applicable_price(a1) != 0,
        subscription.applicable_price(a1) == subscription.applicable_price(a2),
        subscription.applicable_price(a1) == subscription.applicable_price((a1 + a2) as u128),
    ensures
        ({
            let first = purchase_expiry(now, paid_until, subscription.period(a1));
            let second = purchase_expiry(now, first, subscription.period(a2));
            let once = purchase_expiry(now, paid_until, subscription.period((a1 + a2) as u128));
            second <= once <= second + 1
        }),
{
    let price = subscription.applicable_price(a1);
    lemma_period_additive(price, a1, a2);
    assert(subscription.period(a1) >= 0 && subscription.period(a2) >= 0) by {
        assert(a1 * YEAR_IN_MS >= 0 && a2 * YEAR_IN_MS >= 0) by (nonlinear_arith);
        vstd::arithmetic::div_mod::lemma_div_pos_is_pos(a1 * YEAR_IN_MS, price as int);
        vstd::arithmetic::div_mod::lemma_div_pos_is_pos(a2 * YEAR_IN_MS, price as int);
    }
}

/// A transfer moves time and makes none: what the receiver gains over the
/// later of `now` and the old end is what the sender had left.
pub proof fn lemma_transfer_zero_sum(now: int, sender_paid_until: int, receiver_paid_until: int)
    requires
        sender_paid_until > now,
    ensures
        sender_paid_until - now == transfer_expiry(now, sender_paid_until, receiver_paid_until) - (
        if receiver_paid_until > now {
            receiver_paid_until
        } else {
            now
        }),
        transfer_expiry(now, sender_paid_until, receiver_paid_until) > receiver_paid_until,
{
}

/// One record to commit: the account and the new end of its entitlement.
#[derive(Debug)]
pub struct SubscriptionData {
    pub receiver_id: String,
    pub timestamp: u128,
}

/// The records that a list of updates leaves, by account: the decimal text of
/// the timestamp of the last update of each account.
pub open spec fn timestamps(updates: Seq<SubscriptionData>) -> Map<Seq<char>, Seq<char>>
    decreases updates.len(),
{
    if updates.len() == 0 {
        Map::empty()
    } else {
        timestamps(updates.drop_last()).insert(
            updates.last().receiver_id@,
            decimal_text(updates.last().timestamp as nat),
        )
    }
}

/// A single update leaves a single record.
pub proof fn lemma_timestamps_one(updates: Seq<SubscriptionData>)
    requires
        updates.len() == 1,
    ensures
        timestamps(updates) == Map::<Seq<char>, Seq<char>>::empty().insert(
            updates[0].receiver_id@,
            decimal_text(updates[0].timestamp as nat),
        ),
{
    assert(updates.drop_last().len() == 0);
    assert(timestamps(updates.drop_last()) == Map::<Seq<char>, Seq<char>>::empty());
}

/// Two updates leave the record of the first, then that of the second.
pub proof fn lemma_timestamps_two(updates: Seq<SubscriptionData>)
    requires
        updates.len() == 2,
    ensures
        timestamps(updates) == Map::<Seq<char>, Seq<char>>::empty().insert(
            updates[0].receiver_id@,
            decimal_text(updates[0].timestamp as nat),
        ).insert(updates[1].receiver_id@, decimal_text(updates[1].timestamp as nat)),
{
    lemma_timestamps_one(updates.drop_last());
}

/// `badge_data` is exactly `{"badge": {<subscription>: {"accounts": records}}}`.
pub open spec fn holds_records(
    badge_data: Value,
    subscription: Seq<char>,
    records: Map<Seq<char>, Seq<char>>,
) -> bool {
    match badge_data.sole("badge"@) {
        Some(badge) => match badge.sole(subscription) {
            Some(entry) => match entry.sole("accounts"@) {
                Some(accounts) => accounts.text_members() == Some(records),
                None => false,
            },
            None => false,
        },
        None => false,
    }
}

/// `data` is exactly `{<namespace>: {"badge": {<subscription>: {"accounts":
/// records}}}}`.
pub open spec fn commits_records(
    data: Value,
    subscription: Seq<char>,
    records: Map<Seq<char>, Seq<char>>,
) -> bool {
    match data.sole(SOCIAL_PREMIUM_ACCOUNT_ID@) {
        Some(badge_data) => holds_records(badge_data, subscription, records),
        None => false,
    }
}

/// What a payload commits is what a later read finds: the path to the
/// records exists, and the record of each committed account reads as the
/// number that was written.
pub proof fn lemma_committed_is_read(
    data: Value,
    subscription: Seq<char>,
    records: Map<Seq<char>, Seq<char>>,
    account: Seq<char>,
    timestamp: u128,
)
    requires
        commits_records(data, subscription, records),
        records.contains_key(account),
        records[account] == decimal_text(timestamp as nat),
    ensures
        accounts_node(data, subscription) is Some,
        strict_record(accounts_node(data, subscription)->0, account) == Ok::<
            Option<u128>,
            SettlementError,
        >(Some(timestamp)),
{
    let badge_data = data.sole(SOCIAL_PREMIUM_ACCOUNT_ID@)->0;
    assert(data.members()->0.dom().contains(SOCIAL_PREMIUM_ACCOUNT_ID@));
    let badge = badge_data.sole("badge"@)->0;
    assert(badge_data.members()->0.dom().contains("badge"@));
    let entry = badge.sole(subscription)->0;
    assert(badge.members()->0.dom().contains(subscription));
    let accounts = entry.sole("accounts"@)->0;
    assert(entry.members()->0.dom().contains("accounts"@));
    assert(accounts_node(data, subscription) == Some(accounts));
    let m = accounts.members()->0;
    assert(texts_of(m)->0.contains_key(account));
    assert(m.contains_key(account));
    assert(m[account].text() == Some(decimal_text(timestamp as nat)));
    lemma_parse_of_text(timestamp);
}

/// Nests the records to commit under `badge`, the subscription's name and
/// `accounts`.
pub fn get_badge_data(subscription_name: &String, subscriptions: Vec<SubscriptionData>) -> (r:
    StrMap<Value>)
    ensures
        holds_records(Value::Object(r), subscription_name@, timestamps(subscriptions@)),
{
    let mut receiver_data: StrMap<Value> = StrMap::new();
    let mut i: usize = 0;
    assert(subscriptions@.take(0) =~= Seq::<SubscriptionData>::empty());
    assert(texts_of(receiver_data@)->0 =~= Map::<Seq<char>, Seq<char>>::empty());
    while i < subscriptions.len()
        invariant
            i <= subscriptions@.len(),
            texts_of(receiver_data@) == Some(timestamps(subscriptions@.take(i as int))),
        decreases subscriptions@.len() - i,
    {
        let account: String = subscriptions[i].receiver_id.clone();
        let text: String = format_u128(subscriptions[i].timestamp);
        proof {
            let done = subscriptions@.take(i as int + 1);
            assert(done.drop_last() =~= subscriptions@.take(i as int));
            assert(done.last() == subscriptions@[i as int]);
            lemma_texts_of_insert(receiver_data@, account@, Value::String(text));
        }
        receiver_data.insert(account, Value::String(text));
        i += 1;
    }
    assert(subscriptions@.take(i as int) =~= subscriptions@);
    let accounts_data = Value::wrap(String::from_str("accounts"), Value::Object(receiver_data));
    let subscription_data = Value::wrap(subscription_name.clone(), accounts_data);
    let mut badge_data: StrMap<Value> = StrMap::new();
    badge_data.insert(String::from_str("badge"), subscription_data);
    assert(badge_data@.dom() =~= set!["badge"@]);
    badge_data
}

/// A write to the data store: the payload, how the write is to be treated,
/// and the deposit that goes with it to cover the storage it takes.
#[derive(Debug)]
pub struct WriteRequest {
    pub data: Value,
    pub options: SetOptions,
    pub deposit: u128,
}

impl WriteRequest {
    /// A write of `data` with the standing deposit, of which what is not
    /// used is to come back.
    pub fn new(data: Value) -> (r: WriteRequest)
        ensures
            r.data == data,
            r.standard(),
    {
        WriteRequest {
            data,
            options: SetOptions { refund_unused_deposit: true },
            deposit: DEPOSIT_FOR_SOCIAL_SET,
        }
    }

    /// The write carries the standing deposit and asks back what is not
    /// used of it.
    pub open spec fn standard(&self) -> bool {
        self.options.refund_unused_deposit && self.deposit == DEPOSIT_FOR_SOCIAL_SET
    }
}

/// The write that commits the records: the badge data under the namespace,
/// with what is not used of the deposit to come back.
pub fn internal_set_subscription_holder(
    subscription_name: &String,
    subscriptions: Vec<SubscriptionData>,
) -> (r: WriteRequest)
    ensures
        commits_records(r.data, subscription_name@, timestamps(subscriptions@)),
        r.standard(),
{
    let badge_data = get_badge_data(subscription_name, subscriptions);
    WriteRequest::new(
        Value::wrap(String::from_str(SOCIAL_PREMIUM_ACCOUNT_ID), Value::Object(badge_data)),
    )
}

} // verus!
