//! The protocol spoken with the data store: keys, options, the reading of
//! entitlement records and the payloads that commit new ones.

use vstd::prelude::*;
use vstd::string::*;
use crate::decimal::parse_u128;
use crate::decimal::parsed_u128;
use crate::json::Value;

verus! {

/// Account of the data store.
pub const SOCIAL_DB_ACCOUNT_ID: &'static str = "social.near";

/// Namespace under which the entitlement records are kept.
pub const SOCIAL_PREMIUM_ACCOUNT_ID: &'static str = "premium.social.near";

/// Gas for a batched read of the data store.
pub const GAS_FOR_SOCIAL_GET: u64 = 10_000_000_000_000;

/// Gas for a batched write to the data store.
pub const GAS_FOR_SOCIAL_SET: u64 = 40_000_000_000_000;

/// Gas for the settlement step that follows a read.
pub const GAS_FOR_AFTER_SOCIAL_GET: u64 = 85_000_000_000_000;

/// Gas for the step that releases the locks.
pub const GAS_FOR_UNLOCK: u64 = 10_000_000_000_000;

/// Deposit attached to a write, to cover the storage it takes.
pub const DEPOSIT_FOR_SOCIAL_SET: u128 = 50_000_000_000_000_000_000_000;

/// Smallest deposit that a purchase accepts.
pub const MIN_DEPOSIT: u128 = 1_000_000_000_000_000_000_000_000;

/// The exact deposit that a transfer asks for.
pub const ONE_YOCTO: u128 = 1;

/// What a read may ask for beside the values.
#[derive(Debug)]
pub struct GetOptions {
    pub with_block_height: Option<bool>,
    pub with_node_id: Option<bool>,
    pub return_deleted: Option<bool>,
}

impl Default for GetOptions {
    fn default() -> (r: GetOptions)
        ensures
            r.with_block_height is None,
            r.with_node_id is None,
            r.return_deleted is None,
    {
        GetOptions { with_block_height: None, with_node_id: None, return_deleted: None }
    }
}

/// How a write is to be treated.
#[derive(Debug)]
pub struct SetOptions {
    pub refund_unused_deposit: bool,
}

impl Default for SetOptions {
    fn default() -> (r: SetOptions)
        ensures
            !r.refund_unused_deposit,
    {
        SetOptions { refund_unused_deposit: false }
    }
}

/// Why a read did not deliver.
#[derive(Clone, Copy, Debug, PartialEq, Eq, Structural)]
pub enum PromiseError {
    /// The read failed on the other side.
    Failed,
    /// The answer was not there when the step ran.
    NotReady,
}

/// Why a settlement step aborts. Nothing is committed by a step that aborts.
#[derive(Clone, Copy, Debug, PartialEq, Eq, Structural)]
pub enum SettlementError {
    /// The answer of the data store is no object.
    NotAnObject,
    /// The answer lacks a level of the path to the records.
    NoData,
    /// The sender of a transfer has no record, or one that has run out.
    SenderSubscriptionNotFound,
    /// A record that has to be read is no string or no decimal number.
    MalformedRecord,
    /// The catalog has no subscription of that name.
    SubscriptionNotFound,
    /// The price that applies is zero.
    ZeroPrice,
    /// A sum, a period or a counter would leave its range.
    Overflow,
}

impl SettlementError {
    /// The message that goes with the abort.
    pub fn message(&self) -> (r: &'static str)
        ensures
            r@ == match *self {
                SettlementError::NotAnObject => "Data is not a JSON object"@,
                SettlementError::NoData => "ERR_NO_DATA"@,
                SettlementError::SenderSubscriptionNotFound => "ERR_SENDER_SUBSCRIPTION_NOT_FOUND"@,
                SettlementError::MalformedRecord => "ERR_MALFORMED_RECORD"@,
                SettlementError::SubscriptionNotFound => "ERR_SUBSCRIPTION_NOT_FOUND"@,
                SettlementError::ZeroPrice => "ERR_ZERO_PRICE"@,
                SettlementError::Overflow => "ERR_OVERFLOW"@,
            },
    {
        match self {
            SettlementError::NotAnObject => "Data is not a JSON object",
            SettlementError::NoData => "ERR_NO_DATA",
            SettlementError::SenderSubscriptionNotFound => "ERR_SENDER_SUBSCRIPTION_NOT_FOUND",
            SettlementError::MalformedRecord => "ERR_MALFORMED_RECORD",
            SettlementError::SubscriptionNotFound => "ERR_SUBSCRIPTION_NOT_FOUND",
            SettlementError::ZeroPrice => "ERR_ZERO_PRICE",
            SettlementError::Overflow => "ERR_OVERFLOW",
        }
    }
}

/// The key of an entitlement record:
/// `<namespace>/badge/<subscription>/accounts/<account>`.
pub open spec fn record_key_text(subscription: Seq<char>, account: Seq<char>) -> Seq<char> {
    SOCIAL_PREMIUM_ACCOUNT_ID@ + "/badge/"@ + subscription + "/accounts/"@ + account
}

/// Builds the key of the entitlement record of `account_id` for the
/// subscription `subscription_name`.
pub fn record_key(subscription_name: &String, account_id: &String) -> (r: String)
    ensures
        r@ == record_key_text(subscription_name@, account_id@),
{
    let mut key = String::from_str(SOCIAL_PREMIUM_ACCOUNT_ID);
    key.append("/badge/");
    key.append(subscription_name.as_str());
    key.append("/accounts/");
    key.append(account_id.as_str());
    key
}

/// The object that holds the records of a subscription, by account: the
/// member `accounts` of the member named like the subscription of the member
/// `badge` of the namespace.
pub open spec fn accounts_node(value: Value, subscription: Seq<char>) -> Option<Value> {
    match value.child(SOCIAL_PREMIUM_ACCOUNT_ID@) {
        Some(namespace) => match namespace.child("badge"@) {
            Some(badge) => match badge.child(subscription) {
                Some(entry) => entry.child("accounts"@),
                None => None,
            },
            None => None,
        },
        None => None,
    }
}

/// Walks an answer of the data store down to the records of a subscription.
pub fn find_accounts<'a>(value: &'a Value, subscription_name: &String) -> (r: Option<&'a Value>)
    ensures
        match r {
            Some(v) => accounts_node(*value, subscription_name@) == Some(*v),
            None => accounts_node(*value, subscription_name@) is None,
        },
{
    let namespace_key = String::from_str(SOCIAL_PREMIUM_ACCOUNT_ID);
    let badge_key = String::from_str("badge");
    let accounts_key = String::from_str("accounts");
    match value.get(&namespace_key) {
        Some(namespace) => match namespace.get(&badge_key) {
            Some(badge) => match badge.get(subscription_name) {
                Some(entry) => entry.get(&accounts_key),
                None => None,
            },
            None => None,
        },
        None => None,
    }
}

/// What a record says: `Ok(None)` where there is no record, the number
/// where the record is a string that writes one, and an error for every
/// other record.
pub open spec fn strict_record(accounts: Value, account: Seq<char>) -> Result<
    Option<u128>,
    SettlementError,
> {
    match accounts.child(account) {
        Some(record) => match record.text() {
            Some(text) => match parsed_u128(text) {
                Some(n) => Ok(Some(n)),
                None => Err(SettlementError::MalformedRecord),
            },
            None => Err(SettlementError::MalformedRecord),
        },
        None => Ok(None),
    }
}

/// Reads the record of an account.
pub fn read_strict(accounts: &Value, account_id: &String) -> (r: Result<
    Option<u128>,
    SettlementError,
>)
    ensures
        r == strict_record(*accounts, account_id@),
{
    match accounts.get(account_id) {
        Some(record) => match record.as_str() {
            Some(text) => match parse_u128(text) {
                Some(n) => Ok(Some(n)),
                None => Err(SettlementError::MalformedRecord),
            },
            None => Err(SettlementError::MalformedRecord),
        },
        None => Ok(None),
    }
}

/// The text of an optional string.
pub open spec fn text_of(s: Option<String>) -> Option<Seq<char>> {
    match s {
        Some(s) => Some(s@),
        None => None,
    }
}

/// What the settlement of a purchase takes from the answer of the data store.
#[derive(Clone, Copy, Debug, PartialEq, Eq, Structural)]
pub struct PurchaseReading {
    /// Until when the receiver is entitled already; `now` where the receiver
    /// has no record.
    pub paid_until: u128,
    /// Whether the referral's own entitlement is running.
    pub referral_is_premium: bool,
}

/// The reading of a purchase.
///
/// An empty answer means that nobody holds the subscription yet. Otherwise
/// the path to the records must exist, and a record that is there must be a
/// string that writes a number: the receiver's is tested first, then the
/// referral's. A receiver without a record counts from `now`. A referral
/// without a record is not premium; one with a record is premium while the
/// record lies after `now`.
pub open spec fn purchase_reading(
    value: Value,
    subscription: Seq<char>,
    receiver: Seq<char>,
    referral: Option<Seq<char>>,
    now: u128,
) -> Result<PurchaseReading, SettlementError> {
    match value.members() {
        None => Err(SettlementError::NotAnObject),
        Some(top) => if top =~= Map::<Seq<char>, Value>::empty() {
            Ok(PurchaseReading { paid_until: now, referral_is_premium: false })
        } else {
            match accounts_node(value, subscription) {
                None => Err(SettlementError::NoData),
                Some(accounts) => match strict_record(accounts, receiver) {
                    Err(e) => Err(e),
                    Ok(found) => {
                        let paid_until = match found {
                            Some(n) => n,
                            None => now,
                        };
                        match referral {
                            None => Ok(PurchaseReading { paid_until, referral_is_premium: false }),
                            Some(referral) => match strict_record(accounts, referral) {
                                Err(e) => Err(e),
                                Ok(None) => Ok(
                                    PurchaseReading { paid_until, referral_is_premium: false },
                                ),
                                Ok(Some(n)) => Ok(
                                    PurchaseReading { paid_until, referral_is_premium: n > now },
                                ),
                            },
                        }
                    },
                },
            }
        },
    }
}

/// A receiver whose record is there but is no string, or writes no number,
/// stops the reading: nothing is assumed of what the account had left.
pub proof fn lemma_malformed_receiver_stops_reading(
    value: Value,
    subscription: Seq<char>,
    receiver: Seq<char>,
    referral: Option<Seq<char>>,
    now: u128,
)
    requires
        accounts_node(value, subscription) is Some,
        accounts_node(value, subscription)->0.child(receiver) is Some,
        ({
            let record = accounts_node(value, subscription)->0.child(receiver)->0;
            record.text() is None || parsed_u128(record.text()->0) is None
        }),
    ensures
        purchase_reading(value, subscription, receiver, referral, now) == Err::<
            PurchaseReading,
            SettlementError,
        >(SettlementError::MalformedRecord),
{
    let top = value.members()->0;
    assert(top.contains_key(SOCIAL_PREMIUM_ACCOUNT_ID@));
    assert(!(top =~= Map::<Seq<char>, Value>::empty()));
}

/// Reads what the settlement of a purchase needs from an answer of the data
/// store.
pub fn read_purchase(
    value: &Value,
    subscription_name: &String,
    receiver_id: &String,
    referral_account_id: &Option<String>,
    now: u128,
) -> (r: Result<PurchaseReading, SettlementError>)
    ensures
        r == purchase_reading(
            *value,
            subscription_name@,
            receiver_id@,
            text_of(*referral_account_id),
            now,
        ),
{
    let top = match value.as_object() {
        Some(top) => top,
        None => {
            return Err(SettlementError::NotAnObject);
        },
    };
    if top.is_empty() {
        return Ok(PurchaseReading { paid_until: now, referral_is_premium: false });
    }
    let accounts = match find_accounts(value, subscription_name) {
        Some(accounts) => accounts,
        None => {
            return Err(SettlementError::NoData);
        },
    };
    let paid_until: u128 = match read_strict(accounts, receiver_id) {
        Ok(Some(n)) => n,
        Ok(None) => now,
        Err(e) => {
            return Err(e);
        },
    };
    match referral_account_id {
        None => Ok(PurchaseReading { paid_until, referral_is_premium: false }),
        Some(referral) => match read_strict(accounts, referral) {
            Err(e) => Err(e),
            Ok(None) => Ok(PurchaseReading { paid_until, referral_is_premium: false }),
            Ok(Some(n)) => Ok(PurchaseReading { paid_until, referral_is_premium: n > now }),
        },
    }
}

/// What the settlement of a transfer takes from the answer of the data store.
#[derive(Clone, Copy, Debug, PartialEq, Eq, Structural)]
pub struct TransferReading {
    /// Until when the sender is entitled: always after `now`.
    pub sender_paid_until: u128,
    /// Until when the receiver is entitled; `now` where there is no record.
    pub receiver_paid_until: u128,
}

/// The reading of a transfer.
///
/// The answer must not be empty, the path to the records must exist, and the
/// sender must have a record. A record that is there must be a string that
/// writes a number; a receiver without a record counts from `now`. A sender whose record does not lie
/// after `now` has nothing to transfer.
pub open spec fn transfer_reading(
    value: Value,
    subscription: Seq<char>,
    sender: Seq<char>,
    receiver: Seq<char>,
    now: u128,
) -> Result<TransferReading, SettlementError> {
    match value.members() {
        None => Err(SettlementError::NotAnObject),
        Some(top) => if top =~= Map::<Seq<char>, Value>::empty() {
            Err(SettlementError::SenderSubscriptionNotFound)
        } else {
            match accounts_node(value, subscription) {
                None => Err(SettlementError::NoData),
                Some(accounts) => match strict_record(accounts, sender) {
                    Ok(None) => Err(SettlementError::SenderSubscriptionNotFound),
                    Err(e) => Err(e),
                    Ok(Some(sender_paid_until)) => match strict_record(accounts, receiver) {
                        Err(e) => Err(e),
                        Ok(found) => if sender_paid_until > now {
                            Ok(
                                TransferReading {
                                    sender_paid_until,
                                    receiver_paid_until: match found {
                                        Some(n) => n,
                                        None => now,
                                    },
                                },
                            )
                        } else {
                            Err(SettlementError::SenderSubscriptionNotFound)
                        },
                    },
                },
            }
        },
    }
}

/// Reads what the settlement of a transfer needs from an answer of the data
/// store.
pub fn read_transfer(
    value: &Value,
    subscription_name: &String,
    sender_id: &String,
    receiver_id: &String,
    now: u128,
) -> (r: Result<TransferReading, SettlementError>)
    ensures
        r == transfer_reading(*value, subscription_name@, sender_id@, receiver_id@, now),
        r is Ok ==> r->Ok_0.sender_paid_until > now,
{
    let top = match value.as_object() {
        Some(top) => top,
        None => {
            return Err(SettlementError::NotAnObject);
        },
    };
    if top.is_empty() {
        return Err(SettlementError::SenderSubscriptionNotFound);
    }
    let accounts = match find_accounts(value, subscription_name) {
        Some(accounts) => accounts,
        None => {
            return Err(SettlementError::NoData);
        },
    };
    let sender_paid_until: u128 = match read_strict(accounts, sender_id) {
        Ok(Some(n)) => n,
        Ok(None) => {
            return Err(SettlementError::SenderSubscriptionNotFound);
        },
        Err(e) => {
            return Err(e);
        },
    };
    let receiver_paid_until: u128 = match read_strict(accounts, receiver_id) {
        Ok(Some(n)) => n,
        Ok(None) => now,
        Err(e) => {
            return Err(e);
        },
    };
    if sender_paid_until > now {
        Ok(TransferReading { sender_paid_until, receiver_paid_until })
    } else {
        Err(SettlementError::SenderSubscriptionNotFound)
    }
}

} // verus!
