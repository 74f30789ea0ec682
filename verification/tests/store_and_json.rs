use near_sdk::serde_json;
use social_premium::json::Value;
use social_premium::social::find_accounts;
use social_premium::social::read_strict;
use social_premium::social::SettlementError;
use social_premium::store::StrMap;

fn k(text: &str) -> String {
    text.to_string()
}

#[test]
fn map_insert_get_remove() {
    let mut map: StrMap<u64> = StrMap::new();
    assert!(map.is_empty());
    assert_eq!(map.get(&k("a")), None);
    assert_eq!(map.insert(k("a"), 1), None);
    assert_eq!(map.insert(k("b"), 2), None);
    assert_eq!(map.insert(k("a"), 3), Some(1));
    assert_eq!(map.get(&k("a")), Some(&3));
    assert_eq!(map.get(&k("b")), Some(&2));
    assert!(map.contains_key(&k("b")));
    assert!(!map.contains_key(&k("c")));
    assert!(!map.is_empty());
    let mut keys = map.keys();
    keys.sort();
    assert_eq!(keys, vec![k("a"), k("b")]);
    assert_eq!(map.remove(&k("a")), Some(3));
    assert_eq!(map.remove(&k("a")), None);
    assert_eq!(map.get(&k("a")), None);
    assert_eq!(map.keys(), vec![k("b")]);
    assert_eq!(map.remove(&k("b")), Some(2));
    assert!(map.is_empty());
    assert!(map.keys().is_empty());
}

#[test]
fn map_keys_are_compared_as_text() {
    let mut map: StrMap<u8> = StrMap::new();
    map.insert(k(""), 0);
    map.insert(k("a"), 1);
    map.insert(k("A"), 2);
    map.insert(k("a "), 3);
    assert_eq!(map.get(&k("")), Some(&0));
    assert_eq!(map.get(&k("a")), Some(&1));
    assert_eq!(map.get(&k("A")), Some(&2));
    assert_eq!(map.get(&k("a ")), Some(&3));
    assert_eq!(map.keys().len(), 4);
}

#[test]
fn value_kinds() {
    let text = Value::String(k("x"));
    assert_eq!(text.as_str(), Some("x"));
    assert!(text.as_object().is_none());
    assert!(text.get(&k("x")).is_none());
    for other in [Value::Null, Value::Bool(true), Value::Number(k("1")), Value::Array(vec![])] {
        assert_eq!(other.as_str(), None);
        assert!(other.as_object().is_none());
        assert!(other.get(&k("x")).is_none());
    }
    let object = Value::wrap(k("x"), Value::String(k("y")));
    assert_eq!(object.as_str(), None);
    assert_eq!(object.as_object().unwrap().keys(), vec![k("x")]);
    assert_eq!(object.get(&k("x")).unwrap().as_str(), Some("y"));
    assert!(object.get(&k("y")).is_none());
}

fn tree(value: &serde_json::Value) -> Value {
    match value {
        serde_json::Value::Null => Value::Null,
        serde_json::Value::Bool(b) => Value::Bool(*b),
        serde_json::Value::Number(n) => Value::Number(n.to_string()),
        serde_json::Value::String(s) => Value::String(s.clone()),
        serde_json::Value::Array(items) => Value::Array(items.iter().map(tree).collect()),
        serde_json::Value::Object(members) => {
            let mut map = StrMap::new();
            for (key, member) in members {
                map.insert(key.clone(), tree(member));
            }
            Value::Object(map)
        }
    }
}

const ANSWER: &str = r#"{
    "premium.social.near": {
        "badge": {
            "pro": {
                "accounts": {
                    "alice.near": "1700000010000",
                    "bob.near": "soon",
                    "carol.near": 1700000010000,
                    "dave.near": null,
                    "erin.near": {"nested": "1"}
                },
                "metadata": {"name": "Pro"}
            },
            "basic": {"metadata": {"name": "Basic"}},
            "list": ["accounts"]
        }
    },
    "other.near": "text"
}"#;

#[test]
fn lookups_agree_with_the_json_library() {
    let parsed: serde_json::Value = serde_json::from_str(ANSWER).unwrap();
    let answer = tree(&parsed);
    for key in ["premium.social.near", "other.near", "badge", "", "missing"] {
        let theirs = parsed.get(key);
        let ours = answer.get(&k(key));
        assert_eq!(theirs.is_some(), ours.is_some(), "{}", key);
        if let (Some(theirs), Some(ours)) = (theirs, ours) {
            assert_eq!(theirs.as_str(), ours.as_str());
            assert_eq!(theirs.is_object(), ours.as_object().is_some());
        }
    }
    for name in ["pro", "basic", "list", "metadata", ""] {
        let theirs = parsed
            .get("premium.social.near")
            .and_then(|v| v.get("badge"))
            .and_then(|v| v.get(name))
            .and_then(|v| v.get("accounts"));
        let ours = find_accounts(&answer, &k(name));
        assert_eq!(theirs.is_some(), ours.is_some(), "{}", name);
    }
    let theirs = &parsed["premium.social.near"]["badge"]["pro"]["accounts"];
    let ours = find_accounts(&answer, &k("pro")).unwrap();
    for account in ["alice.near", "bob.near", "carol.near", "dave.near", "erin.near", "zed.near"] {
        let their_record = theirs.get(account);
        let our_record = ours.get(&k(account));
        assert_eq!(their_record.is_some(), our_record.is_some(), "{}", account);
        assert_eq!(
            their_record.and_then(|v| v.as_str()),
            our_record.and_then(|v| v.as_str()),
            "{}",
            account
        );
        let number = their_record.and_then(|v| v.as_str()).and_then(|s| s.parse::<u128>().ok());
        assert_eq!(read_strict(ours, &k(account)).ok().flatten(), number, "{}", account);
    }
}

#[test]
fn records_are_numbers_in_strings() {
    let parsed: serde_json::Value = serde_json::from_str(ANSWER).unwrap();
    let answer = tree(&parsed);
    let accounts = find_accounts(&answer, &k("pro")).unwrap();
    assert_eq!(read_strict(accounts, &k("alice.near")), Ok(Some(1_700_000_010_000)));
    assert_eq!(read_strict(accounts, &k("zed.near")), Ok(None));
    for account in ["bob.near", "carol.near", "dave.near", "erin.near"] {
        assert_eq!(
            read_strict(accounts, &k(account)),
            Err(SettlementError::MalformedRecord),
            "{}",
            account
        );
    }
    assert!(find_accounts(&answer, &k("basic")).is_none());
    assert!(find_accounts(&answer, &k("list")).is_none());
    assert!(find_accounts(&Value::Null, &k("pro")).is_none());
}
