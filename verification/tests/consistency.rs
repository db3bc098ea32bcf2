use radical::consistency::{ConsistencyCheckBody, ConsistencyClient, KeyInfo};
use radical::dummy::DummyStorage;
use radical::dynamo::DynamoStore;
use radical::storage::{BatchGetStep, KeySet, Storage};
use serde_json::Value;

const ID: u128 = 0x00010203_0405_0607_0809_0a0b0c0d0e0f;
const ID_TEXT: &str = "00010203-0405-0607-0809-0a0b0c0d0e0f";

fn pair(table: &str, key: &[u8]) -> (String, Vec<u8>) {
    (table.to_string(), key.to_vec())
}

fn info(table: &str, key: &[u8], version: i64) -> KeyInfo {
    KeyInfo { table: table.to_string(), key: key.to_vec(), version }
}

#[test]
fn keys_are_asked_for_once_in_each_list() {
    let key_set = KeySet {
        read_set: vec![pair("t", b"a"), pair("t", b"b"), pair("t", b"a"), pair("u", b"a")],
        write_set: vec![pair("t", b"a"), pair("t", b"a")],
    };
    assert_eq!(
        key_set.table_key_pairs(),
        vec![pair("t", b"a"), pair("t", b"b"), pair("u", b"a"), pair("t", b"a")]
    );
}

#[test]
fn a_key_that_is_read_and_written_counts_as_read() {
    let key_set = KeySet {
        read_set: vec![pair("t", b"a")],
        write_set: vec![pair("t", b"a"), pair("t", b"b"), pair("u", b"a")],
    };
    let versions = vec![
        ("t".to_string(), b"a".to_vec(), Some(4)),
        ("t".to_string(), b"b".to_vec(), None),
        ("u".to_string(), b"a".to_vec(), Some(0)),
    ];
    assert!(ConsistencyCheckBody::versions_known(&versions, &key_set));
    let body = ConsistencyCheckBody::create(
        versions,
        ID,
        key_set,
        Value::from("args"),
        "http://dc/f".to_string(),
    );
    // The table does not count: a key that is read in one table is read.
    assert_eq!(body.read_keys, vec![info("t", b"a", 4), info("u", b"a", 0)]);
    assert_eq!(body.write_keys, vec![info("t", b"b", -1)]);
    assert_eq!(body.id, ID_TEXT);
    assert_eq!(body.args, Value::from("args"));
    assert_eq!(body.function, "http://dc/f");
}

#[test]
fn versions_of_other_keys_are_not_known() {
    let key_set = KeySet { read_set: vec![pair("t", b"a")], write_set: vec![pair("t", b"b")] };
    let versions = vec![("t".to_string(), b"c".to_vec(), Some(1))];
    assert!(!ConsistencyCheckBody::versions_known(&versions, &key_set));
}

#[test]
fn a_backend_answers_for_the_keys_that_were_asked() {
    let mut storage = DummyStorage::new();
    storage.try_put("t".to_string(), b"a".to_vec(), b"1".to_vec()).unwrap();
    let key_set = KeySet {
        read_set: vec![pair("t", b"a"), pair("t", b"x")],
        write_set: vec![pair("t", b"a"), pair("t", b"y")],
    };
    let versions = match storage.batch_get(&key_set.table_key_pairs()) {
        BatchGetStep::Done(versions) => versions,
        BatchGetStep::Send(_) => panic!("an in-memory backend sends nothing"),
    };
    assert!(ConsistencyCheckBody::versions_known(&versions, &key_set));
    let body =
        ConsistencyCheckBody::create(versions, 1, key_set, Value::Null, String::new());
    assert_eq!(
        body.read_keys,
        vec![info("t", b"a", 0), info("t", b"x", -1), info("t", b"a", 0)]
    );
    assert_eq!(body.write_keys, vec![info("t", b"y", -1)]);
}

#[test]
fn requests_go_to_the_endpoints_of_the_service() {
    let client = ConsistencyClient::new("http://check".to_string());
    assert_eq!(client.check_endpoint(), "http://check/check");
    assert_eq!(client.followup_endpoint(), "http://check/update");
    let body = ConsistencyCheckBody {
        read_keys: Vec::new(),
        write_keys: vec![info("t", b"k", 2)],
        id: "i".to_string(),
        args: Value::Null,
        function: "f".to_string(),
    };
    let request = client.do_check(body);
    assert_eq!(request.url, "http://check/check");
    assert_eq!(request.body.write_keys, vec![info("t", b"k", 2)]);
    let request = client.do_followup(ID, vec![Value::from(1), Value::from("x")]);
    assert_eq!(request.url, "http://check/update");
    assert_eq!(
        request.body,
        serde_json::from_str::<Value>(
            "{\"Updates\": [1, \"x\"], \"Id\": \"00010203-0405-0607-0809-0a0b0c0d0e0f\"}"
        )
        .unwrap()
    );
}

#[test]
fn a_reply_about_requested_keys_can_be_classified() {
    let key_set = KeySet { read_set: vec![pair("t", b"a")], write_set: vec![pair("u", b"b")] };
    let entries = match DynamoStore::new().batch_get(&key_set.table_key_pairs()) {
        BatchGetStep::Send(entries) => entries,
        BatchGetStep::Done(_) => panic!("the database is remote"),
    };
    let responses =
        entries.into_iter().map(|entry| (entry.table_name, entry.keys)).collect();
    let versions = DynamoStore::finish_batch_get(Some(responses));
    assert!(ConsistencyCheckBody::versions_known(&versions, &key_set));
    let body = ConsistencyCheckBody::create(versions, 1, key_set, Value::Null, String::new());
    assert_eq!(body.read_keys, vec![info("t", b"a", -1)]);
    assert_eq!(body.write_keys, vec![info("u", b"b", -1)]);
}

#[test]
fn copies_of_keys_and_clients_are_alike() {
    assert_eq!(info("t", b"k", 7).clone(), info("t", b"k", 7));
    let client = ConsistencyClient::new("http://check".to_string());
    assert_eq!(client.clone().check_endpoint(), "http://check/check");
}
