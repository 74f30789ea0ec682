//! The state of the engine, its account locks and the steps that open a
//! purchase or a transfer.

use vstd::prelude::*;
use vstd::string::*;
use crate::ledger::ledger_sum;
use crate::ledger::lemma_ledger_sum_empty;
use crate::social::record_key;
use crate::social::record_key_text;
use crate::social::text_of;
use crate::social::GetOptions;
use crate::social::MIN_DEPOSIT;
use crate::social::ONE_YOCTO;
use crate::store::StrMap;
use crate::subscription::VSubscription;
use crate::utils::FeeError;
use crate::utils::FeeFraction;

verus! {

/// Number of blocks for which a claimed lock keeps other claims out.
pub const BLOCKS_NUM_TO_LOCK_ACCOUNT: u64 = 60;

/// The engine: catalog, locks, counters and the referral ledger.
#[derive(Debug)]
pub struct SocialPremium {
    pub owner_id: String,
    /// The subscriptions on offer, by name.
    pub subscriptions: StrMap<VSubscription>,
    /// The block height at which each locked account was claimed.
    pub account_locks: StrMap<u64>,
    /// Deposits that the engine has kept.
    pub deposits: u128,
    /// Number of settlements made.
    pub operations: u64,
    /// The referral last credited for each account.
    pub referrals: StrMap<String>,
    /// Rate paid to a referral.
    pub referral_fee: FeeFraction,
    /// Rate paid to a referral whose own entitlement is running.
    pub premium_referral_fee: FeeFraction,
    /// Everything ever paid to each referral.
    pub referral_rewards: StrMap<u128>,
    /// Everything ever paid to referrals.
    pub total_referral_rewards: u128,
}

/// The state of the engine as mathematical maps and numbers.
pub struct State {
    pub owner_id: Seq<char>,
    pub subscriptions: Map<Seq<char>, VSubscription>,
    pub account_locks: Map<Seq<char>, u64>,
    pub deposits: u128,
    pub operations: u64,
    pub referrals: Map<Seq<char>, Seq<char>>,
    pub referral_fee: FeeFraction,
    pub premium_referral_fee: FeeFraction,
    pub referral_rewards: Map<Seq<char>, u128>,
    pub total_referral_rewards: u128,
}

impl State {
    /// Both fees are rates: no reward exceeds the amount it is taken of.
    pub open spec fn well_formed(&self) -> bool {
        self.referral_fee.valid() && self.premium_referral_fee.valid()
    }

    /// The total of the rewards mirrors the ledger: it is the sum of all
    /// entries.
    pub open spec fn balanced(&self) -> bool {
        self.referral_rewards.dom().finite() && ledger_sum(self.referral_rewards)
            == self.total_referral_rewards
    }
}

/// A map of strings, each taken by its text.
pub open spec fn texts(m: Map<Seq<char>, String>) -> Map<Seq<char>, Seq<char>> {
    Map::new(|k: Seq<char>| m.contains_key(k), |k: Seq<char>| m[k]@)
}

/// The texts of a list of strings, as a set.
pub open spec fn text_set(s: Seq<String>) -> Set<Seq<char>> {
    Set::new(|k: Seq<char>| exists|i: int| 0 <= i < s.len() && #[trigger] s[i]@ == k)
}

/// The texts of a list of strings, in order.
pub open spec fn text_seq(s: Seq<String>) -> Seq<Seq<char>> {
    Seq::new(s.len(), |i: int| s[i]@)
}

impl View for SocialPremium {
    type V = State;

    open spec fn view(&self) -> State {
        State {
            owner_id: self.owner_id@,
            subscriptions: self.subscriptions@,
            account_locks: self.account_locks@,
            deposits: self.deposits,
            operations: self.operations,
            referrals: texts(self.referrals@),
            referral_fee: self.referral_fee,
            premium_referral_fee: self.premium_referral_fee,
            referral_rewards: self.referral_rewards@,
            total_referral_rewards: self.total_referral_rewards,
        }
    }
}

/// Why a call is turned away before anything is locked or read.
#[derive(Clone, Copy, Debug, PartialEq, Eq, Structural)]
pub enum ContractError {
    /// The caller is not the owner.
    NoAccess,
    /// A fee fraction is not a rate.
    InvalidFee(FeeError),
    /// The referral of a purchase is its receiver.
    SelfReferral,
    /// The deposit of a purchase is below the minimum.
    DepositTooSmall,
    /// A lock on the account is still fresh.
    AccountLocked,
    /// The catalog has no subscription of that name.
    NoSubscription,
    /// The deposit of a transfer is not the attestation deposit.
    OneYoctoRequired,
    /// The receiver of a transfer is its sender.
    SenderIsReceiver,
    /// More is to be withdrawn than was kept.
    NotEnoughDeposits,
}

impl ContractError {
    /// The message that goes with the rejection.
    pub fn message(&self) -> (r: &'static str)
        ensures
            r@ == match *self {
                ContractError::NoAccess => "ERR_NO_ACCESS"@,
                ContractError::InvalidFee(FeeError::ZeroDenominator) =>
                    "Denominator must be a positive number"@,
                ContractError::InvalidFee(FeeError::AboveOne) =>
                    "The fee must be less or equal to 1"@,
                ContractError::SelfReferral => "ERR_SELF_REFERRAL_NOT_ALLOWED"@,
                ContractError::DepositTooSmall => "Deposit 1000000000000000000000000 required"@,
                ContractError::AccountLocked => "ERR_ACCOUNT_LOCKED"@,
                ContractError::NoSubscription => "ERR_NO_SUBSCRIPTION"@,
                ContractError::OneYoctoRequired => "ERR_ONE_YOCTO_REQUIRED"@,
                ContractError::SenderIsReceiver => "ERR_SENDER_IS_RECEIVER"@,
                ContractError::NotEnoughDeposits => "ERR_NOT_ENOUGH_DEPOSITS"@,
            },
    {
        match self {
            ContractError::NoAccess => "ERR_NO_ACCESS",
            ContractError::InvalidFee(e) => e.message(),
            ContractError::SelfReferral => "ERR_SELF_REFERRAL_NOT_ALLOWED",
            ContractError::DepositTooSmall => "Deposit 1000000000000000000000000 required",
            ContractError::AccountLocked => "ERR_ACCOUNT_LOCKED",
            ContractError::NoSubscription => "ERR_NO_SUBSCRIPTION",
            ContractError::OneYoctoRequired => "ERR_ONE_YOCTO_REQUIRED",
            ContractError::SenderIsReceiver => "ERR_SENDER_IS_RECEIVER",
            ContractError::NotEnoughDeposits => "ERR_NOT_ENOUGH_DEPOSITS",
        }
    }
}

/// The height at which an account was last claimed; zero without a lock.
pub open spec fn lock_height(locks: Map<Seq<char>, u64>, account: Seq<char>) -> int {
    if locks.contains_key(account) {
        locks[account] as int
    } else {
        0
    }
}

/// Whether a claim at `height` finds the account free: the last claim, or
/// zero without one, lies a full window back.
pub open spec fn may_claim(locks: Map<Seq<char>, u64>, account: Seq<char>, height: u64) -> bool {
    lock_height(locks, account) + BLOCKS_NUM_TO_LOCK_ACCOUNT <= height
}

/// A claimed account turns every claim away while the window lasts.
pub proof fn lemma_fresh_lock_blocks(
    locks: Map<Seq<char>, u64>,
    account: Seq<char>,
    claimed: u64,
    height: u64,
)
    requires
        height < claimed + BLOCKS_NUM_TO_LOCK_ACCOUNT,
    ensures
        !may_claim(locks.insert(account, claimed), account, height),
{
}

/// Once the window has passed, a claimed account accepts a claim again,
/// whether its lock was released in between or not.
pub proof fn lemma_lock_expires(
    locks: Map<Seq<char>, u64>,
    account: Seq<char>,
    claimed: u64,
    height: u64,
)
    requires
        height >= claimed + BLOCKS_NUM_TO_LOCK_ACCOUNT,
    ensures
        may_claim(locks.insert(account, claimed), account, height),
        may_claim(locks.insert(account, claimed).remove(account), account, height),
{
}

/// A lock on one account never stands in the way of another.
pub proof fn lemma_lock_is_per_account(
    locks: Map<Seq<char>, u64>,
    account: Seq<char>,
    other: Seq<char>,
    claimed: u64,
    height: u64,
)
    requires
        account != other,
    ensures
        may_claim(locks.insert(account, claimed), other, height) == may_claim(locks, other, height),
        may_claim(locks.remove(account), other, height) == may_claim(locks, other, height),
{
}

/// What the opening step of a purchase hands on: the keys to read and what
/// the settlement will need.
#[derive(Debug)]
pub struct PurchaseRequest {
    /// The records to read: the receiver's, then the referral's if there is
    /// one.
    pub keys: Vec<String>,
    /// What the read asks for beside the values: nothing.
    pub options: Option<GetOptions>,
    pub receiver_id: String,
    pub subscription_name: String,
    pub amount: u128,
    pub referral_account_id: Option<String>,
    /// The accounts to release once the settlement step is over, however it
    /// ends: the receiver.
    pub unlock: Vec<String>,
}

/// What the opening step of a transfer hands on.
#[derive(Debug)]
pub struct TransferRequest {
    /// The records to read: the sender's, then the receiver's.
    pub keys: Vec<String>,
    /// What the read asks for beside the values: nothing.
    pub options: Option<GetOptions>,
    pub sender_id: String,
    pub receiver_id: String,
    pub subscription_name: String,
    /// The accounts to release once the settlement step is over, however it
    /// ends: the sender, then the receiver.
    pub unlock: Vec<String>,
}

/// The referral of a purchase: the one named with it, else the one last
/// credited for the receiver, else none.
pub open spec fn resolved_referral(
    state: State,
    receiver: Seq<char>,
    referral: Option<Seq<char>>,
) -> Option<Seq<char>> {
    match referral {
        Some(r) => Some(r),
        None => if state.referrals.contains_key(receiver) {
            Some(state.referrals[receiver])
        } else {
            None
        },
    }
}

/// Whether a purchase may open, and the first reason why not: the call is
/// validated before the lock is tried.
pub open spec fn purchase_check(
    state: State,
    name: Seq<char>,
    receiver: Seq<char>,
    referral: Option<Seq<char>>,
    deposit: u128,
    height: u64,
) -> Result<(), ContractError> {
    if referral == Some(receiver) {
        Err(ContractError::SelfReferral)
    } else if deposit < MIN_DEPOSIT {
        Err(ContractError::DepositTooSmall)
    } else if !state.subscriptions.contains_key(name) {
        Err(ContractError::NoSubscription)
    } else if !may_claim(state.account_locks, receiver, height) {
        Err(ContractError::AccountLocked)
    } else {
        Ok(())
    }
}

/// The keys that a purchase reads.
pub open spec fn purchase_keys(
    name: Seq<char>,
    receiver: Seq<char>,
    referral: Option<Seq<char>>,
) -> Seq<Seq<char>> {
    match referral {
        Some(r) => seq![record_key_text(name, receiver), record_key_text(name, r)],
        None => seq![record_key_text(name, receiver)],
    }
}

/// Whether a transfer may open, and the first reason why not.
pub open spec fn transfer_check(
    state: State,
    name: Seq<char>,
    sender: Seq<char>,
    receiver: Seq<char>,
    deposit: u128,
    height: u64,
) -> Result<(), ContractError> {
    if deposit != ONE_YOCTO {
        Err(ContractError::OneYoctoRequired)
    } else if !state.subscriptions.contains_key(name) {
        Err(ContractError::NoSubscription)
    } else if receiver == sender {
        Err(ContractError::SenderIsReceiver)
    } else if !may_claim(state.account_locks, receiver, height) || !may_claim(
        state.account_locks,
        sender,
        height,
    ) {
        Err(ContractError::AccountLocked)
    } else {
        Ok(())
    }
}

/// While the lock of an account is fresh, no purchase for it and no
/// transfer from it or to it can open.
pub proof fn lemma_locked_account_rejects(
    state: State,
    account: Seq<char>,
    claimed: u64,
    height: u64,
    name: Seq<char>,
    other: Seq<char>,
    referral: Option<Seq<char>>,
    deposit: u128,
)
    requires
        height < claimed + BLOCKS_NUM_TO_LOCK_ACCOUNT,
    ensures
        ({
            let locked = State {
                account_locks: state.account_locks.insert(account, claimed),
                ..state
            };
            &&& purchase_check(locked, name, account, referral, deposit, height) is Err
            &&& transfer_check(locked, name, account, other, deposit, height) is Err
            &&& transfer_check(locked, name, other, account, deposit, height) is Err
        }),
{
}

/// Once the window has passed, the lock of an account turns no purchase
/// away, whether it was released in between or not.
pub proof fn lemma_expired_lock_admits(
    state: State,
    account: Seq<char>,
    claimed: u64,
    height: u64,
    name: Seq<char>,
    referral: Option<Seq<char>>,
    deposit: u128,
)
    requires
        height >= claimed + BLOCKS_NUM_TO_LOCK_ACCOUNT,
    ensures
        ({
            let locked = State {
                account_locks: state.account_locks.insert(account, claimed),
                ..state
            };
            let released = State { account_locks: locked.account_locks.remove(account), ..state };
            &&& purchase_check(locked, name, account, referral, deposit, height) != Err::<
                (),
                ContractError,
            >(ContractError::AccountLocked)
            &&& purchase_check(released, name, account, referral, deposit, height) != Err::<
                (),
                ContractError,
            >(ContractError::AccountLocked)
        }),
{
}

impl SocialPremium {
    /// An engine without subscriptions, locks or rewards. Both fees must be
    /// rates; the referral fee is tested first.
    pub fn new(owner_id: String, referral_fee: FeeFraction, premium_referral_fee: FeeFraction) -> (r:
        Result<SocialPremium, FeeError>)
        ensures
            r is Ok <==> referral_fee.valid() && premium_referral_fee.valid(),
            r is Ok ==> r->Ok_0@.well_formed() && r->Ok_0@.balanced(),
            r is Ok ==> r->Ok_0@ == (State {
                owner_id: owner_id@,
                subscriptions: Map::empty(),
                account_locks: Map::empty(),
                deposits: 0,
                operations: 0,
                referrals: Map::empty(),
                referral_fee,
                premium_referral_fee,
                referral_rewards: Map::empty(),
                total_referral_rewards: 0,
            }),
            r is Err ==> r->Err_0 == (if !referral_fee.valid() {
                if referral_fee.denominator == 0 {
                    FeeError::ZeroDenominator
                } else {
                    FeeError::AboveOne
                }
            } else if premium_referral_fee.denominator == 0 {
                FeeError::ZeroDenominator
            } else {
                FeeError::AboveOne
            }),
    {
        match referral_fee.assert_valid() {
            Err(e) => {
                return Err(e);
            },
            Ok(()) => {},
        }
        match premium_referral_fee.assert_valid() {
            Err(e) => {
                return Err(e);
            },
            Ok(()) => {},
        }
        let r = SocialPremium {
            owner_id,
            subscriptions: StrMap::new(),
            account_locks: StrMap::new(),
            deposits: 0,
            operations: 0,
            referrals: StrMap::new(),
            referral_fee,
            premium_referral_fee,
            referral_rewards: StrMap::new(),
            total_referral_rewards: 0,
        };
        assert(r@.referrals =~= Map::empty());
        proof {
            lemma_ledger_sum_empty();
        }
        Ok(r)
    }

    /// Passes the owner and nobody else.
    pub fn assert_owner(&self, predecessor: &String) -> (r: Result<(), ContractError>)
        ensures
            r == if predecessor@ == self@.owner_id {
                Ok::<(), ContractError>(())
            } else {
                Err::<(), ContractError>(ContractError::NoAccess)
            },
    {
        if *predecessor == self.owner_id {
            Ok(())
        } else {
            Err(ContractError::NoAccess)
        }
    }

    /// Passes the names that the catalog holds.
    pub fn assert_subscription(&self, subscription_name: &String) -> (r: Result<(), ContractError>)
        ensures
            r == if self@.subscriptions.contains_key(subscription_name@) {
                Ok::<(), ContractError>(())
            } else {
                Err::<(), ContractError>(ContractError::NoSubscription)
            },
    {
        if self.subscriptions.contains_key(subscription_name) {
            Ok(())
        } else {
            Err(ContractError::NoSubscription)
        }
    }

    /// Whether a claim at `block_height` would find the account free.
    pub fn can_lock(&self, account_id: &String, block_height: u64) -> (r: bool)
        ensures
            r == may_claim(self@.account_locks, account_id@, block_height),
    {
        let account_lock: u64 = match self.account_locks.get(account_id) {
            Some(height) => *height,
            None => 0,
        };
        match account_lock.checked_add(BLOCKS_NUM_TO_LOCK_ACCOUNT) {
            Some(until) => until <= block_height,
            None => false,
        }
    }

    /// Claims the lock on an account at `block_height`.
    ///
    /// The claim is turned away while an earlier claim is less than a full
    /// window back, and then changes nothing. A claim that passes records
    /// its height.
    pub fn lock_account(&mut self, account_id: &String, block_height: u64) -> (r: Result<
        (),
        ContractError,
    >)
        ensures
            r == if may_claim(old(self)@.account_locks, account_id@, block_height) {
                Ok::<(), ContractError>(())
            } else {
                Err::<(), ContractError>(ContractError::AccountLocked)
            },
            r is Ok ==> final(self)@ == (State {
                account_locks: old(self)@.account_locks.insert(account_id@, block_height),
                ..old(self)@
            }),
            r is Err ==> *final(self) == *old(self),
    {
        if self.can_lock(account_id, block_height) {
            self.account_locks.insert(account_id.clone(), block_height);
            Ok(())
        } else {
            Err(ContractError::AccountLocked)
        }
    }

    /// Releases the lock on an account, whether it is held or not.
    pub fn internal_unlock_account(&mut self, account_id: &String)
        ensures
            final(self)@ == (State {
                account_locks: old(self)@.account_locks.remove(account_id@),
                ..old(self)@
            }),
    {
        self.account_locks.remove(account_id);
    }

    /// Releases the locks on all of `accounts`. This never fails.
    pub fn unlock_accounts(&mut self, accounts: Vec<String>)
        ensures
            final(self)@ == (State {
                account_locks: old(self)@.account_locks.remove_keys(text_set(accounts@)),
                ..old(self)@
            }),
    {
        let mut i: usize = 0;
        assert(old(self)@.account_locks.remove_keys(text_set(accounts@.take(0)))
            =~= old(self)@.account_locks);
        while i < accounts.len()
            invariant
                i <= accounts@.len(),
                self@ == (State {
                    account_locks: old(self)@.account_locks.remove_keys(
                        text_set(accounts@.take(i as int)),
                    ),
                    ..old(self)@
                }),
            decreases accounts@.len() - i,
        {
            let ghost before = accounts@.take(i as int);
            let ghost after = accounts@.take(i as int + 1);
            self.internal_unlock_account(&accounts[i]);
            proof {
                assert(after[i as int]@ == accounts@[i as int]@);
                assert forall|k: Seq<char>| text_set(after).contains(k) <==> (text_set(
                    before,
                ).contains(k) || k == accounts@[i as int]@) by {
                    if text_set(after).contains(k) {
                        let j = choose|j: int| 0 <= j < after.len() && #[trigger] after[j]@ == k;
                        if j < i {
                            assert(before[j]@ == k);
                        }
                    }
                    if text_set(before).contains(k) {
                        let j = choose|j: int| 0 <= j < before.len() && #[trigger] before[j]@ == k;
                        assert(after[j]@ == k);
                    }
                }
                assert(old(self)@.account_locks.remove_keys(text_set(before)).remove(
                    accounts@[i as int]@,
                ) =~= old(self)@.account_locks.remove_keys(text_set(after)));
            }
            i += 1;
        }
        assert(accounts@.take(i as int) =~= accounts@);
    }

    /// Opens a purchase of the subscription `name` for `receiver_id`, or for
    /// the caller `predecessor` where no receiver is named, with the
    /// attached `deposit`, at `block_height`.
    ///
    /// The referral is the one named, which must not be the receiver, else
    /// the one last credited for the receiver. The deposit must reach the
    /// minimum, the receiver must be free to lock, and the catalog must hold
    /// the subscription. A purchase that opens holds the lock on the
    /// receiver; one that is turned away changes nothing.
    pub fn purchase(
        &mut self,
        name: String,
        receiver_id: Option<String>,
        referral_id: Option<String>,
        predecessor: String,
        deposit: u128,
        block_height: u64,
    ) -> (r: Result<PurchaseRequest, ContractError>)
        ensures
            ({
                let receiver = match receiver_id {
                    Some(id) => id@,
                    None => predecessor@,
                };
                let referral = resolved_referral(old(self)@, receiver, text_of(referral_id));
                match r {
                    Ok(request) => {
                        &&& purchase_check(
                            old(self)@,
                            name@,
                            receiver,
                            text_of(referral_id),
                            deposit,
                            block_height,
                        ) is Ok
                        &&& final(self)@ == (State {
                            account_locks: old(self)@.account_locks.insert(receiver, block_height),
                            ..old(self)@
                        })
                        &&& request.receiver_id@ == receiver
                        &&& request.subscription_name@ == name@
                        &&& request.amount == deposit
                        &&& text_of(request.referral_account_id) == referral
                        &&& text_seq(request.keys@) == purchase_keys(name@, receiver, referral)
                        &&& request.options is None
                        &&& text_seq(request.unlock@) == seq![receiver]
                    },
                    Err(e) => {
                        &&& purchase_check(
                            old(self)@,
                            name@,
                            receiver,
                            text_of(referral_id),
                            deposit,
                            block_height,
                        ) == Err::<(), ContractError>(e)
                        &&& *final(self) == *old(self)
                    },
                }
            }),
    {
        let receiver_id: String = match receiver_id {
            Some(id) => id,
            None => predecessor,
        };
        let referral_account_id: Option<String> = match referral_id {
            Some(referral_id) => {
                if referral_id == receiver_id {
                    return Err(ContractError::SelfReferral);
                }
                Some(referral_id)
            },
            None => match self.referrals.get(&receiver_id) {
                Some(stored) => Some(stored.clone()),
                None => None,
            },
        };
        if deposit < MIN_DEPOSIT {
            return Err(ContractError::DepositTooSmall);
        }
        if !self.subscriptions.contains_key(&name) {
            return Err(ContractError::NoSubscription);
        }
        if !self.can_lock(&receiver_id, block_height) {
            return Err(ContractError::AccountLocked);
        }
        self.account_locks.insert(receiver_id.clone(), block_height);
        let mut keys: Vec<String> = Vec::new();
        keys.push(record_key(&name, &receiver_id));
        match &referral_account_id {
            Some(referral_id) => {
                keys.push(record_key(&name, referral_id));
            },
            None => {},
        }
        let mut unlock: Vec<String> = Vec::new();
        unlock.push(receiver_id.clone());
        assert(text_seq(keys@) =~= purchase_keys(
            name@,
            receiver_id@,
            text_of(referral_account_id),
        ));
        assert(text_seq(unlock@) =~= seq![receiver_id@]);
        Ok(
            PurchaseRequest {
                keys,
                options: None,
                receiver_id,
                subscription_name: name,
                amount: deposit,
                referral_account_id,
                unlock,
            },
        )
    }

    /// Opens a transfer of what the caller `predecessor` has left of the
    /// subscription `name` to `receiver_id`, with the attached `deposit`, at
    /// `block_height`.
    ///
    /// The deposit must be the attestation deposit, the catalog must hold the
    /// subscription, sender and receiver must differ and both must be free
    /// to lock. A transfer that opens holds both locks; one that is turned
    /// away changes nothing.
    pub fn transfer(
        &mut self,
        name: String,
        receiver_id: String,
        predecessor: String,
        deposit: u128,
        block_height: u64,
    ) -> (r: Result<TransferRequest, ContractError>)
        ensures
            match r {
                Ok(request) => {
                    &&& transfer_check(
                        old(self)@,
                        name@,
                        predecessor@,
                        receiver_id@,
                        deposit,
                        block_height,
                    ) is Ok
                    &&& final(self)@ == (State {
                        account_locks: old(self)@.account_locks.insert(
                            receiver_id@,
                            block_height,
                        ).insert(predecessor@, block_height),
                        ..old(self)@
                    })
                    &&& request.sender_id@ == predecessor@
                    &&& request.receiver_id@ == receiver_id@
                    &&& request.subscription_name@ == name@
                    &&& text_seq(request.keys@) == seq![
                        record_key_text(name@, predecessor@),
                        record_key_text(name@, receiver_id@),
                    ]
                    &&& request.options is None
                    &&& text_seq(request.unlock@) == seq![predecessor@, receiver_id@]
                },
                Err(e) => {
                    &&& transfer_check(
                        old(self)@,
                        name@,
                        predecessor@,
                        receiver_id@,
                        deposit,
                        block_height,
                    ) == Err::<(), ContractError>(e)
                    &&& *final(self) == *old(self)
                },
            },
    {
        if deposit != ONE_YOCTO {
            return Err(ContractError::OneYoctoRequired);
        }
        let sender_id: String = predecessor;
        if !self.subscriptions.contains_key(&name) {
            return Err(ContractError::NoSubscription);
        }
        if receiver_id == sender_id {
            return Err(ContractError::SenderIsReceiver);
        }
        if !self.can_lock(&receiver_id, block_height) || !self.can_lock(&sender_id, block_height) {
            return Err(ContractError::AccountLocked);
        }
        self.account_locks.insert(receiver_id.clone(), block_height);
        self.account_locks.insert(sender_id.clone(), block_height);
        let mut keys: Vec<String> = Vec::new();
        keys.push(record_key(&name, &sender_id));
        keys.push(record_key(&name, &receiver_id));
        assert(text_seq(keys@) =~= seq![
            record_key_text(name@, sender_id@),
            record_key_text(name@, receiver_id@),
        ]);
        let mut unlock: Vec<String> = Vec::new();
        unlock.push(sender_id.clone());
        unlock.push(receiver_id.clone());
        assert(text_seq(unlock@) =~= seq![sender_id@, receiver_id@]);
        Ok(
            TransferRequest {
                keys,
                options: None,
                sender_id,
                receiver_id,
                subscription_name: name,
                unlock,
            },
        )
    }
}

} // verus!
