use social_premium::contract::ContractError;
use social_premium::contract::SocialPremium;
use social_premium::contract::BLOCKS_NUM_TO_LOCK_ACCOUNT;
use social_premium::social::MIN_DEPOSIT;
use social_premium::utils::FeeFraction;

fn name(s: &str) -> String {
    s.to_string()
}

fn lock_engine() -> SocialPremium {
    let mut engine = SocialPremium::new(
        name("owner.near"),
        FeeFraction { numerator: 1, denominator: 10 },
        FeeFraction { numerator: 2, denominator: 10 },
    )
    .unwrap();
    engine
        .add_subscription(&name("owner.near"), name("pro"), name("Pro"), name(""), name(""), 100, 1000)
        .unwrap();
    engine
}

#[test]
fn lock_window_is_sixty_blocks() {
    assert_eq!(BLOCKS_NUM_TO_LOCK_ACCOUNT, 60);
}

#[test]
fn fresh_lock_rejects_a_second_claim() {
    let mut engine = lock_engine();
    assert_eq!(engine.lock_account(&name("alice.near"), 1_000), Ok(()));
    assert_eq!(engine.get_lock(&name("alice.near")), Some(1_000));
    for height in [1_000, 1_001, 1_059] {
        assert!(!engine.can_lock(&name("alice.near"), height));
        assert_eq!(
            engine.lock_account(&name("alice.near"), height),
            Err(ContractError::AccountLocked)
        );
        // The claim that was turned away has not moved the lock.
        assert_eq!(engine.get_lock(&name("alice.near")), Some(1_000));
    }
    assert_eq!(ContractError::AccountLocked.message(), "ERR_ACCOUNT_LOCKED");
}

#[test]
fn lock_expires_without_unlock() {
    let mut engine = lock_engine();
    engine.lock_account(&name("alice.near"), 1_000).unwrap();
    assert!(engine.can_lock(&name("alice.near"), 1_060));
    assert_eq!(engine.lock_account(&name("alice.near"), 1_060), Ok(()));
    assert_eq!(engine.get_lock(&name("alice.near")), Some(1_060));
    assert_eq!(
        engine.lock_account(&name("alice.near"), 1_119),
        Err(ContractError::AccountLocked)
    );
    assert_eq!(engine.lock_account(&name("alice.near"), 5_000), Ok(()));
}

#[test]
fn unlock_frees_the_account() {
    let mut engine = lock_engine();
    engine.lock_account(&name("alice.near"), 1_000).unwrap();
    engine.internal_unlock_account(&name("alice.near"));
    assert_eq!(engine.get_lock(&name("alice.near")), None);
    assert_eq!(engine.lock_account(&name("alice.near"), 1_060), Ok(()));
    engine.internal_unlock_account(&name("alice.near"));
    assert_eq!(engine.lock_account(&name("alice.near"), 1_061), Ok(()));
}

#[test]
fn unlock_is_idempotent() {
    let mut engine = lock_engine();
    engine.internal_unlock_account(&name("alice.near"));
    engine.lock_account(&name("alice.near"), 1_000).unwrap();
    engine.lock_account(&name("bob.near"), 1_000).unwrap();
    engine.lock_account(&name("carol.near"), 1_000).unwrap();
    engine.unlock_accounts(vec![name("alice.near"), name("bob.near"), name("alice.near"), name("zed.near")]);
    engine.unlock_accounts(vec![]);
    engine.unlock_accounts(vec![name("alice.near")]);
    assert_eq!(engine.get_lock(&name("alice.near")), None);
    assert_eq!(engine.get_lock(&name("bob.near")), None);
    assert_eq!(engine.get_lock(&name("carol.near")), Some(1_000));
}

#[test]
fn an_account_without_lock_counts_as_claimed_at_zero() {
    let mut engine = lock_engine();
    assert!(!engine.can_lock(&name("alice.near"), 0));
    assert!(!engine.can_lock(&name("alice.near"), 59));
    assert_eq!(engine.lock_account(&name("alice.near"), 59), Err(ContractError::AccountLocked));
    assert_eq!(engine.get_lock(&name("alice.near")), None);
    assert_eq!(engine.lock_account(&name("alice.near"), 60), Ok(()));
}

#[test]
fn a_lock_near_the_last_block_never_expires() {
    let mut engine = lock_engine();
    engine.lock_account(&name("alice.near"), u64::MAX - 10).unwrap();
    assert!(!engine.can_lock(&name("alice.near"), u64::MAX));
    engine.internal_unlock_account(&name("alice.near"));
    assert!(engine.can_lock(&name("alice.near"), u64::MAX));
}

#[test]
fn locks_are_per_account() {
    let mut engine = lock_engine();
    engine.lock_account(&name("alice.near"), 1_000).unwrap();
    assert_eq!(engine.lock_account(&name("bob.near"), 1_001), Ok(()));
    assert_eq!(engine.get_lock(&name("alice.near")), Some(1_000));
    assert_eq!(engine.get_lock(&name("bob.near")), Some(1_001));
}

#[test]
fn second_purchase_within_the_window_is_rejected() {
    let mut engine = lock_engine();
    engine
        .purchase(name("pro"), None, None, name("alice.near"), MIN_DEPOSIT, 1_000)
        .unwrap();
    let rejected = engine.purchase(name("pro"), None, None, name("alice.near"), MIN_DEPOSIT, 1_030);
    assert_eq!(rejected.unwrap_err(), ContractError::AccountLocked);
    let rejected = engine.purchase(
        name("pro"),
        Some(name("alice.near")),
        None,
        name("bob.near"),
        MIN_DEPOSIT,
        1_030,
    );
    assert_eq!(rejected.unwrap_err(), ContractError::AccountLocked);
    let rejected = engine.transfer(name("pro"), name("bob.near"), name("alice.near"), 1, 1_030);
    assert_eq!(rejected.unwrap_err(), ContractError::AccountLocked);
    let rejected = engine.transfer(name("pro"), name("alice.near"), name("bob.near"), 1, 1_030);
    assert_eq!(rejected.unwrap_err(), ContractError::AccountLocked);
    assert_eq!(engine.get_lock(&name("alice.near")), Some(1_000));
    assert_eq!(engine.get_lock(&name("bob.near")), None);

    // After the window, with no unlock in between.
    assert!(engine
        .purchase(name("pro"), None, None, name("alice.near"), MIN_DEPOSIT, 1_060)
        .is_ok());
    // Within the new window, after an unlock.
    engine.unlock_accounts(vec![name("alice.near")]);
    assert!(engine
        .purchase(name("pro"), None, None, name("alice.near"), MIN_DEPOSIT, 1_061)
        .is_ok());
}

#[test]
fn an_unknown_subscription_is_reported_before_the_lock() {
    let mut engine = lock_engine();
    engine.lock_account(&name("alice.near"), 1_000).unwrap();
    let rejected = engine.purchase(name("basic"), None, None, name("alice.near"), MIN_DEPOSIT, 1_030);
    assert_eq!(rejected.unwrap_err(), ContractError::NoSubscription);
    let rejected = engine.purchase(name("pro"), None, None, name("alice.near"), 5, 1_030);
    assert_eq!(rejected.unwrap_err(), ContractError::DepositTooSmall);
}
