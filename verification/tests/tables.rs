use chaindb::ChainDB;
use chaindb::ContractTransactionData;
use chaindb::TestTable;
use chaindb::Table;
use chaindb::TransactionType;

fn connect() -> ChainDB {
    ChainDB::connect(None, "test-db", "root", "1234")
}

fn record(tx_type: TransactionType, contract_id: String, table: TestTable) -> ContractTransactionData<TestTable> {
    ContractTransactionData { tx_type, contract_id, timestamp: Some(1700000000), data: table }
}

#[test]
fn absent_table_resolves_to_default_with_derived_id() {
    let db = connect();
    let table = db.get_table("test", None, TestTable::new());
    assert_eq!(table.table.greeting, "Hi");
    assert_eq!(table.table.year, 2023);
    assert_eq!(*table.contract_id(), sha256::digest("test-dbtestroot1234"));
}

#[test]
fn contract_record_with_matching_id_resolves_to_its_payload() {
    let db = connect();
    let id = db.access.parse("test-db".to_string(), "test".to_string());
    let stored = TestTable { greeting: "Hello".to_string(), year: 2024 };
    let fetched = Some(record(TransactionType::CONTRACT, id, stored));
    let table = db.get_table("test", fetched, TestTable::new());
    assert_eq!(table.table.greeting, "Hello");
    assert_eq!(table.table.year, 2024);
}

#[test]
fn contract_record_with_foreign_id_resolves_to_default() {
    let db = connect();
    let stored = TestTable { greeting: "Hello".to_string(), year: 2024 };
    let fetched = Some(record(TransactionType::CONTRACT, "somebody-else".to_string(), stored));
    let table = db.get_table("test", fetched, TestTable::new());
    assert_eq!(table.table.greeting, "Hi");
    assert_eq!(table.table.year, 2023);
}

#[test]
fn non_contract_record_resolves_to_default() {
    let db = connect();
    let id = db.access.parse("test-db".to_string(), "test".to_string());
    let stored = TestTable { greeting: "Hello".to_string(), year: 2024 };
    let fetched = Some(record(TransactionType::ACCOUNT, id, stored));
    let table = db.get_table("test", fetched, TestTable::new());
    assert_eq!(table.table.greeting, "Hi");
}

#[test]
fn persist_then_fetch_returns_the_persisted_value() {
    let db = connect();
    let id = db.access.parse("test-db".to_string(), "test".to_string());

    // First use: nothing stored yet, mutate the in-memory value.
    let mut table = db.get_table("test", None, TestTable::new());
    table.table.set_greeting("Hello".to_string());
    table.table.year = 2024;

    // What a fetch would hand back after the persist request is accepted.
    let written = record(
        TransactionType::CONTRACT,
        id,
        TestTable { greeting: table.table.greeting.clone(), year: table.table.year },
    );
    let again = db.get_table("test", Some(written), TestTable::new());
    assert_eq!(again.table.greeting, "Hello");
    assert_eq!(again.table.year, 2024);
    assert_eq!(again.contract_id(), table.contract_id());
}

#[test]
fn persist_body_embeds_the_serialized_value() {
    let db = connect();
    let table = db.get_table("test", None, TestTable::new());
    let body = table.persist_body("{\"greeting\":\"Hello\",\"year\":2024}");
    let expected = format!(
        "{{\"contract_id\":\"{id}\",\"data\":\"{{\\\"greeting\\\":\\\"Hello\\\",\\\"year\\\":2024}}\",\"db_access_key\":\"{key}\",\"tx_type\":\"CONTRACT\"}}",
        id = table.contract_id(),
        key = db.access_key,
    );
    assert_eq!(body, expected);

    // The reference encoder agrees, escaping included.
    let mut map = serde_json::Map::new();
    map.insert("tx_type".to_string(), serde_json::Value::String("CONTRACT".to_string()));
    map.insert("contract_id".to_string(), serde_json::Value::String(table.contract_id().clone()));
    map.insert("db_access_key".to_string(), serde_json::Value::String(db.access_key.clone()));
    map.insert(
        "data".to_string(),
        serde_json::Value::String("{\"greeting\":\"Hello\",\"year\":2024}".to_string()),
    );
    assert_eq!(body, serde_json::to_string(&serde_json::Value::Object(map)).unwrap());
}

#[test]
fn history_with_only_the_none_sentinel_is_empty() {
    let db = connect();
    let id = db.access.parse("test-db".to_string(), "test".to_string());
    let entries = vec![record(TransactionType::NONE, id, TestTable::new())];
    let history = Table::get_history(entries);
    assert!(history.is_empty());
}

#[test]
fn history_keeps_payloads_in_delivered_order() {
    let db = connect();
    let id = db.access.parse("test-db".to_string(), "test".to_string());
    let entries = vec![
        record(
            TransactionType::CONTRACT,
            id.clone(),
            TestTable { greeting: "newest".to_string(), year: 2024 },
        ),
        record(
            TransactionType::CONTRACT,
            id,
            TestTable { greeting: "oldest".to_string(), year: 2023 },
        ),
    ];
    let history = Table::get_history(entries);
    assert_eq!(history.len(), 2);
    assert_eq!(history[0].greeting, "newest");
    assert_eq!(history[1].greeting, "oldest");
}

#[test]
fn history_with_one_real_entry_keeps_it() {
    let db = connect();
    let id = db.access.parse("test-db".to_string(), "test".to_string());
    let entries = vec![record(TransactionType::CONTRACT, id, TestTable::new())];
    let history = Table::get_history(entries);
    assert_eq!(history.len(), 1);
    assert_eq!(history[0].greeting, "Hi");
}
