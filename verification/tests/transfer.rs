use social_premium::contract::ContractError;
use social_premium::contract::SocialPremium;
use social_premium::json::Value;
use social_premium::settlement::receiver_expiry;
use social_premium::social::find_accounts;
use social_premium::social::read_strict;
use social_premium::social::read_transfer;
use social_premium::social::PromiseError;
use social_premium::social::SettlementError;
use social_premium::social::TransferReading;
use social_premium::steps::Outcome;
use social_premium::steps::TransferSettlement;
use social_premium::store::StrMap;
use social_premium::utils::FeeFraction;

const NOW: u128 = 1_700_000_000_000;

fn owned(s: &str) -> String {
    s.to_string()
}

fn transfer_engine() -> SocialPremium {
    let mut engine = SocialPremium::new(
        owned("owner.near"),
        FeeFraction { numerator: 1, denominator: 10 },
        FeeFraction { numerator: 2, denominator: 10 },
    )
    .unwrap();
    engine
        .add_subscription(&owned("owner.near"), owned("pro"), owned("Pro"), owned(""), owned(""), 100, 1000)
        .unwrap();
    engine
}

fn stored(name: &str, records: Vec<(&str, Value)>) -> Value {
    let mut accounts = StrMap::new();
    for (account, record) in records {
        accounts.insert(owned(account), record);
    }
    Value::wrap(
        owned("premium.social.near"),
        Value::wrap(
            owned("badge"),
            Value::wrap(owned(name), Value::wrap(owned("accounts"), Value::Object(accounts))),
        ),
    )
}

fn until(n: u128) -> Value {
    Value::String(n.to_string())
}

fn done(outcome: Result<Outcome<TransferSettlement>, SettlementError>) -> TransferSettlement {
    match outcome {
        Ok(Outcome::Settled(settlement)) => settlement,
        other => panic!("not settled: {:?}", other),
    }
}

fn written(data: &Value, name: &str, account: &str) -> Option<u128> {
    let accounts = find_accounts(data, &owned(name)).expect("path to the records");
    read_strict(accounts, &owned(account)).expect("a well-formed record")
}

#[test]
fn transfer_to_a_receiver_without_record() {
    let mut engine = transfer_engine();
    let settlement = done(engine.transfer_after_social_get(
        Ok(stored("pro", vec![("alice.near", until(NOW + 10_000))])),
        owned("alice.near"),
        owned("bob.near"),
        owned("pro"),
        NOW,
    ));
    assert_eq!(settlement.receiver_timestamp, NOW + 10_000);
    assert_eq!(settlement.sender_timestamp, NOW);
    assert_eq!(written(&settlement.write.data, "pro", "bob.near"), Some(NOW + 10_000));
    assert_eq!(written(&settlement.write.data, "pro", "alice.near"), Some(NOW));
    assert!(settlement.write.options.refund_unused_deposit);
    assert_eq!(engine.get_operations(), 1);
    assert_eq!(engine.get_deposits(), 0);
}

#[test]
fn transfer_payload_holds_both_records_and_nothing_else() {
    let mut engine = transfer_engine();
    let settlement = done(engine.transfer_after_social_get(
        Ok(stored("pro", vec![("alice.near", until(NOW + 10_000)), ("zed.near", until(5))])),
        owned("alice.near"),
        owned("bob.near"),
        owned("pro"),
        NOW,
    ));
    let accounts = find_accounts(&settlement.write.data, &owned("pro")).unwrap();
    let mut names = accounts.as_object().unwrap().keys();
    names.sort();
    assert_eq!(names, vec![owned("alice.near"), owned("bob.near")]);
    assert_eq!(accounts.get(&owned("alice.near")).unwrap().as_str(), Some("1700000000000"));
    assert_eq!(accounts.get(&owned("bob.near")).unwrap().as_str(), Some("1700000010000"));
    assert_eq!(settlement.write.data.as_object().unwrap().keys(), vec![owned("premium.social.near")]);
}

#[test]
fn transfer_stacks_on_the_receivers_time() {
    let mut engine = transfer_engine();
    let settlement = done(engine.transfer_after_social_get(
        Ok(stored(
            "pro",
            vec![("alice.near", until(NOW + 10_000)), ("bob.near", until(NOW + 500))],
        )),
        owned("alice.near"),
        owned("bob.near"),
        owned("pro"),
        NOW,
    ));
    assert_eq!(settlement.receiver_timestamp, NOW + 10_500);

    // What the receiver had has run out: it counts from now.
    let settlement = done(engine.transfer_after_social_get(
        Ok(stored(
            "pro",
            vec![("alice.near", until(NOW + 10_000)), ("bob.near", until(NOW - 500))],
        )),
        owned("alice.near"),
        owned("bob.near"),
        owned("pro"),
        NOW,
    ));
    assert_eq!(settlement.receiver_timestamp, NOW + 10_000);
    assert_eq!(engine.get_operations(), 2);
}

#[test]
fn transfer_is_zero_sum() {
    for (sender, receiver) in [(NOW + 1, 0), (NOW + 77, NOW), (NOW + 77, NOW + 3), (u128::MAX, 0)] {
        let new_end = receiver_expiry(NOW, sender, receiver).unwrap();
        let base = if receiver > NOW { receiver } else { NOW };
        assert_eq!(sender - NOW, new_end - base);
    }
    assert_eq!(receiver_expiry(1_000, 11_000, 0), Some(11_000));
    assert_eq!(receiver_expiry(1_000, 11_000, 2_000), Some(12_000));
    assert_eq!(receiver_expiry(1_000, u128::MAX, 1_001), None);
    assert_eq!(receiver_expiry(0, u128::MAX, 0), Some(u128::MAX));
}

#[test]
fn transfer_needs_a_running_entitlement() {
    let mut engine = transfer_engine();
    let cases = vec![
        (Value::Object(StrMap::new()), SettlementError::SenderSubscriptionNotFound),
        (stored("pro", vec![]), SettlementError::SenderSubscriptionNotFound),
        (stored("pro", vec![("bob.near", until(NOW + 5))]), SettlementError::SenderSubscriptionNotFound),
        (stored("pro", vec![("alice.near", until(NOW))]), SettlementError::SenderSubscriptionNotFound),
        (stored("pro", vec![("alice.near", until(NOW - 1))]), SettlementError::SenderSubscriptionNotFound),
        (stored("basic", vec![("alice.near", until(NOW + 5))]), SettlementError::NoData),
        (Value::wrap(owned("premium.social.near"), Value::Bool(true)), SettlementError::NoData),
        (Value::Array(vec![]), SettlementError::NotAnObject),
        (Value::Null, SettlementError::NotAnObject),
        (
            stored("pro", vec![("alice.near", Value::String(owned("tomorrow")))]),
            SettlementError::MalformedRecord,
        ),
        (
            stored("pro", vec![("alice.near", Value::Number(owned("1800000000000")))]),
            SettlementError::MalformedRecord,
        ),
        (
            stored("pro", vec![("alice.near", until(NOW + 5)), ("bob.near", Value::Null)]),
            SettlementError::MalformedRecord,
        ),
        (
            stored(
                "pro",
                vec![("alice.near", until(NOW - 5)), ("bob.near", Value::String(owned("x")))],
            ),
            SettlementError::MalformedRecord,
        ),
        (
            stored("pro", vec![("alice.near", until(u128::MAX)), ("bob.near", until(NOW + 1))]),
            SettlementError::Overflow,
        ),
    ];
    for (answer, expected) in cases {
        let outcome = engine.transfer_after_social_get(
            Ok(answer),
            owned("alice.near"),
            owned("bob.near"),
            owned("pro"),
            NOW,
        );
        match outcome {
            Err(e) => assert_eq!(e, expected),
            other => panic!("settled or dropped: {:?}", other),
        }
    }
    assert_eq!(engine.get_operations(), 0);
    assert_eq!(SettlementError::NotAnObject.message(), "Data is not a JSON object");
    assert_eq!(SettlementError::NoData.message(), "ERR_NO_DATA");
    assert_eq!(
        SettlementError::SenderSubscriptionNotFound.message(),
        "ERR_SENDER_SUBSCRIPTION_NOT_FOUND"
    );
    assert_eq!(SettlementError::SubscriptionNotFound.message(), "ERR_SUBSCRIPTION_NOT_FOUND");
}

#[test]
fn failed_read_drops_the_transfer() {
    let mut engine = transfer_engine();
    let outcome = engine.transfer_after_social_get(
        Err(PromiseError::Failed),
        owned("alice.near"),
        owned("bob.near"),
        owned("pro"),
        NOW,
    );
    assert!(matches!(outcome, Ok(Outcome::Dropped)));
    assert_eq!(engine.get_operations(), 0);
}

#[test]
fn transfer_reading_values() {
    let answer = stored(
        "pro",
        vec![("alice.near", until(NOW + 9)), ("bob.near", Value::String(owned("+0042")))],
    );
    assert_eq!(
        read_transfer(&answer, &owned("pro"), &owned("alice.near"), &owned("bob.near"), NOW),
        Ok(TransferReading { sender_paid_until: NOW + 9, receiver_paid_until: 42 })
    );
    assert_eq!(
        read_transfer(&answer, &owned("pro"), &owned("alice.near"), &owned("carol.near"), NOW),
        Ok(TransferReading { sender_paid_until: NOW + 9, receiver_paid_until: NOW })
    );
    assert_eq!(
        read_transfer(&answer, &owned("pro"), &owned("bob.near"), &owned("alice.near"), NOW),
        Err(SettlementError::SenderSubscriptionNotFound)
    );
}

#[test]
fn settle_transfer_from_a_reading() {
    let mut engine = transfer_engine();
    let settlement = engine
        .settle_transfer(
            TransferReading { sender_paid_until: NOW + 1, receiver_paid_until: NOW + 2 },
            owned("alice.near"),
            owned("bob.near"),
            owned("pro"),
            NOW,
        )
        .unwrap();
    assert_eq!(settlement.receiver_timestamp, NOW + 3);
    let rejected = engine.settle_transfer(
        TransferReading { sender_paid_until: NOW, receiver_paid_until: NOW + 2 },
        owned("alice.near"),
        owned("bob.near"),
        owned("pro"),
        NOW,
    );
    assert!(matches!(rejected, Err(SettlementError::SenderSubscriptionNotFound)));
    engine.operations = u64::MAX;
    let rejected = engine.settle_transfer(
        TransferReading { sender_paid_until: NOW + 1, receiver_paid_until: 0 },
        owned("alice.near"),
        owned("bob.near"),
        owned("pro"),
        NOW,
    );
    assert!(matches!(rejected, Err(SettlementError::Overflow)));
    assert_eq!(engine.get_operations(), u64::MAX);
}

#[test]
fn opening_a_transfer() {
    let mut engine = transfer_engine();
    let request = engine
        .transfer(owned("pro"), owned("bob.near"), owned("alice.near"), 1, 100)
        .unwrap();
    assert_eq!(request.sender_id, "alice.near");
    assert_eq!(request.receiver_id, "bob.near");
    assert_eq!(request.subscription_name, "pro");
    assert!(request.options.is_none());
    assert_eq!(
        request.keys,
        vec![
            owned("premium.social.near/badge/pro/accounts/alice.near"),
            owned("premium.social.near/badge/pro/accounts/bob.near"),
        ]
    );
    assert_eq!(request.unlock, vec![owned("alice.near"), owned("bob.near")]);
    assert_eq!(engine.get_lock(&owned("alice.near")), Some(100));
    assert_eq!(engine.get_lock(&owned("bob.near")), Some(100));
    engine.unlock_accounts(request.unlock);
    assert_eq!(engine.get_lock(&owned("alice.near")), None);
    assert_eq!(engine.get_lock(&owned("bob.near")), None);
}

#[test]
fn transfer_is_validated_before_anything_is_locked() {
    let mut engine = transfer_engine();
    for deposit in [0, 2, 1_000_000_000_000_000_000_000_000] {
        let rejected = engine.transfer(owned("pro"), owned("bob.near"), owned("alice.near"), deposit, 100);
        assert_eq!(rejected.unwrap_err(), ContractError::OneYoctoRequired);
    }
    let rejected = engine.transfer(owned("basic"), owned("bob.near"), owned("alice.near"), 1, 100);
    assert_eq!(rejected.unwrap_err(), ContractError::NoSubscription);
    let rejected = engine.transfer(owned("pro"), owned("alice.near"), owned("alice.near"), 1, 100);
    assert_eq!(rejected.unwrap_err(), ContractError::SenderIsReceiver);
    assert_eq!(engine.get_lock(&owned("alice.near")), None);
    assert_eq!(engine.get_lock(&owned("bob.near")), None);
    assert_eq!(ContractError::OneYoctoRequired.message(), "ERR_ONE_YOCTO_REQUIRED");
    assert_eq!(ContractError::SenderIsReceiver.message(), "ERR_SENDER_IS_RECEIVER");
}

#[test]
fn transfer_with_one_side_locked_locks_neither() {
    let mut engine = transfer_engine();
    engine.lock_account(&owned("alice.near"), 100).unwrap();
    let rejected = engine.transfer(owned("pro"), owned("bob.near"), owned("alice.near"), 1, 120);
    assert_eq!(rejected.unwrap_err(), ContractError::AccountLocked);
    assert_eq!(engine.get_lock(&owned("bob.near")), None);
    assert_eq!(engine.get_lock(&owned("alice.near")), Some(100));
    let rejected = engine.transfer(owned("pro"), owned("alice.near"), owned("bob.near"), 1, 120);
    assert_eq!(rejected.unwrap_err(), ContractError::AccountLocked);
    assert_eq!(engine.get_lock(&owned("bob.near")), None);
    assert_eq!(engine.get_lock(&owned("alice.near")), Some(100));
}
