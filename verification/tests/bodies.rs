use chaindb::ChainDB;
use serde_json::Number;
use serde_json::Value;

fn encode(map: serde_json::Map<String, Value>) -> String {
    serde_json::to_string(&Value::Object(map)).unwrap()
}

#[test]
fn create_account_body_matches_reference_encoder() {
    let db = ChainDB::connect(None, "test-db", "root", "1234");
    let body = db.create_user_account_body("alice", "fake123pass", Some(10), None);

    let mut map = serde_json::Map::new();
    map.insert("db_access_key".to_string(), Value::String(db.access_key.clone()));
    map.insert("user_name".to_string(), Value::String("alice".to_string()));
    map.insert("password".to_string(), Value::String("fake123pass".to_string()));
    map.insert("password_hint".to_string(), Value::Null);
    map.insert("units".to_string(), Value::Number(Number::from(10u64)));
    assert_eq!(body, encode(map));
}

#[test]
fn create_account_body_with_hint_and_no_units() {
    let db = ChainDB::connect(None, "test-db", "root", "1234");
    let body = db.create_user_account_body("bob", "pw", None, Some("my hint".to_string()));
    let expected = format!(
        "{{\"db_access_key\":\"{}\",\"password\":\"pw\",\"password_hint\":\"my hint\",\"units\":null,\"user_name\":\"bob\"}}",
        db.access_key
    );
    assert_eq!(body, expected);
}

#[test]
fn create_account_body_escapes_like_reference_encoder() {
    let db = ChainDB::connect(None, "test-db", "root", "1234");
    let tricky = "a\"b\\c\nd\te\u{1}f\u{1f}π€";
    let body = db.create_user_account_body(tricky, "p\rq\u{8}\u{c}", Some(0), None);

    let mut map = serde_json::Map::new();
    map.insert("db_access_key".to_string(), Value::String(db.access_key.clone()));
    map.insert("user_name".to_string(), Value::String(tricky.to_string()));
    map.insert("password".to_string(), Value::String("p\rq\u{8}\u{c}".to_string()));
    map.insert("password_hint".to_string(), Value::Null);
    map.insert("units".to_string(), Value::Number(Number::from(0u64)));
    assert_eq!(body, encode(map));
}

#[test]
fn transfer_body_matches_reference_encoder() {
    let db = ChainDB::connect(None, "test-db", "root", "1234");
    let body = db.transfer_units_body("id-a", "id-b", 6);

    let mut map = serde_json::Map::new();
    map.insert("db_access_key".to_string(), Value::String(db.access_key.clone()));
    map.insert("from".to_string(), Value::String("id-a".to_string()));
    map.insert("to".to_string(), Value::String("id-b".to_string()));
    map.insert("units".to_string(), Value::Number(Number::from(6u64)));
    assert_eq!(body, encode(map));
}

#[test]
fn transfer_body_renders_extreme_amounts() {
    let db = ChainDB::connect(None, "db", "u", "p");
    let zero = db.transfer_units_body("a", "b", 0);
    assert!(zero.ends_with("\"units\":0}"));
    let huge = db.transfer_units_body("a", "b", u64::MAX);
    assert!(huge.ends_with("\"units\":18446744073709551615}"));
}
