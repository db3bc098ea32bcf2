use radical::dummy::DummyStorage;
use radical::dynamo::DynamoStore;
use radical::keyed::{label_get, KeyedMap};
use radical::provider::{StorageClone, StorageProvider, StorageWrapper};
use radical::storage::{
    deserialize_bytes, Attribute, BatchGetStep, BatchUpdateStep, GetStep, InvalidBase64, Item,
    PutStep, StaleKeyInfo, Storage, UpdateItem,
};
use radical::wasm::MyState;
use serde_json::Value;

fn json(text: &str) -> Value {
    serde_json::from_str(text).unwrap()
}

fn update(table: &str, key: &[u8], value: &[u8], version: i64) -> UpdateItem {
    UpdateItem {
        table: table.to_string(),
        value: value.to_vec(),
        key: key.to_vec(),
        version,
    }
}

fn stored(storage: &DummyStorage, table: &str, key: &[u8]) -> Option<(i64, Vec<u8>)> {
    match storage.get(table.to_string(), &key.to_vec()) {
        GetStep::Done(stored) => stored,
        GetStep::Send(_) => panic!("an in-memory backend sends nothing"),
    }
}

fn stale_key(table: &str, key: &[u8]) -> StaleKeyInfo {
    StaleKeyInfo { table: table.to_string(), key: key.to_vec(), is_value_replicated: true }
}

#[test]
fn base64_text_is_decoded() {
    assert_eq!(deserialize_bytes("aGVsbG8=".to_string()), Ok(b"hello".to_vec()));
    assert_eq!(deserialize_bytes(String::new()), Ok(Vec::new()));
}

#[test]
fn other_text_is_no_base64() {
    assert_eq!(deserialize_bytes("aGVsbG8".to_string()), Err(InvalidBase64));
    assert_eq!(deserialize_bytes("a_b-".to_string()), Err(InvalidBase64));
}

#[test]
fn versions_count_the_puts_of_a_key() {
    let mut storage = DummyStorage::new();
    assert_eq!(stored(&storage, "t", b"k"), None);
    storage.try_put("t".to_string(), b"k".to_vec(), b"1".to_vec()).unwrap();
    assert_eq!(stored(&storage, "t", b"k"), Some((0, b"1".to_vec())));
    storage.try_put("t".to_string(), b"k".to_vec(), b"2".to_vec()).unwrap();
    storage.put("t".to_string(), b"k".to_vec(), b"3".to_vec());
    assert_eq!(stored(&storage, "t", b"k"), Some((2, b"3".to_vec())));
    assert_eq!(stored(&storage, "u", b"k"), None);
    assert_eq!(stored(&storage, "t", b"l"), None);
}

#[test]
fn a_put_records_the_value_as_json() {
    let mut storage = DummyStorage::new();
    storage.try_put("t".to_string(), b"ab".to_vec(), b"{\"n\": [1, null]}".to_vec()).unwrap();
    assert_eq!(
        storage.get_all_writes(),
        vec![json("{\"key\": [97, 98], \"value\": {\"n\": [1, null]}, \"table\": \"t\"}")]
    );
    storage.reset_writes();
    assert!(storage.get_all_writes().is_empty());
    assert_eq!(stored(&storage, "t", b"ab"), Some((0, b"{\"n\": [1, null]}".to_vec())));
}

#[test]
fn a_value_that_is_no_json_is_not_put() {
    let mut storage = DummyStorage::new();
    assert!(storage.try_put("t".to_string(), b"k".to_vec(), b"{".to_vec()).is_none());
    assert_eq!(stored(&storage, "t", b"k"), None);
    assert!(storage.get_all_writes().is_empty());
}

#[test]
fn a_version_is_not_counted_past_its_end() {
    let mut storage = DummyStorage::new();
    storage.store.insert(("t".to_string(), b"k".to_vec()), (i64::MAX, b"1".to_vec()));
    assert!(storage.try_put("t".to_string(), b"k".to_vec(), b"2".to_vec()).is_none());
    assert_eq!(stored(&storage, "t", b"k"), Some((i64::MAX, b"1".to_vec())));
}

#[test]
fn a_batch_of_gets_tells_the_versions_in_order() {
    let mut storage = DummyStorage::new();
    storage.try_put("t".to_string(), b"k".to_vec(), b"1".to_vec()).unwrap();
    storage.try_put("t".to_string(), b"k".to_vec(), b"2".to_vec()).unwrap();
    let pairs = vec![("u".to_string(), b"x".to_vec()), ("t".to_string(), b"k".to_vec())];
    match storage.batch_get(&pairs) {
        BatchGetStep::Done(versions) => assert_eq!(
            versions,
            vec![
                ("u".to_string(), b"x".to_vec(), None),
                ("t".to_string(), b"k".to_vec(), Some(1)),
            ]
        ),
        BatchGetStep::Send(_) => panic!("an in-memory backend sends nothing"),
    }
}

#[test]
fn updates_are_puts_in_order() {
    let mut storage = DummyStorage::new();
    let items = vec![update("t", b"k", b"1", 41), update("t", b"k", b"2", 7)];
    assert!(matches!(storage.try_batch_update(&items), Some(BatchUpdateStep::Done)));
    assert_eq!(stored(&storage, "t", b"k"), Some((1, b"2".to_vec())));
    assert_eq!(storage.get_all_writes().len(), 2);
    assert_eq!(
        storage.get_all_writes()[1],
        json("{\"key\": [107], \"value\": 2, \"table\": \"t\"}")
    );
}

#[test]
fn updates_are_applied_all_or_none() {
    let mut storage = DummyStorage::new();
    storage.update_stale_keys(vec![stale_key("t", b"k")]);
    let items = vec![update("t", b"k", b"1", 0), update("t", b"l", b"no json", 0)];
    assert!(storage.try_batch_update(&items).is_none());
    assert_eq!(stored(&storage, "t", b"k"), None);
    assert!(storage.get_all_writes().is_empty());
    assert!(storage.is_key_stale("t", &b"k".to_vec()));
}

#[test]
fn stale_keys_are_replaced_and_cleared() {
    let mut storage = DynamoStore::new();
    assert!(!storage.is_key_stale("t", &b"k".to_vec()));
    storage.update_stale_keys(vec![stale_key("t", b"k"), stale_key("t", b"l")]);
    assert!(storage.is_key_stale("t", &b"k".to_vec()));
    assert!(!storage.is_key_stale("u", &b"k".to_vec()));
    assert!(!storage.is_key_stale("t", &b"m".to_vec()));
    storage.update_stale_keys(vec![stale_key("u", b"k")]);
    assert!(!storage.is_key_stale("t", &b"k".to_vec()));
    assert_eq!(storage.get_stale_keys(), vec![stale_key("u", b"k")]);
    storage.clear_stale_keys();
    assert!(storage.get_stale_keys().is_empty());
}

#[test]
fn a_put_to_the_database_is_an_update_request() {
    let mut storage = DynamoStore::new();
    let request = match storage.put("t".to_string(), b"k".to_vec(), b"v".to_vec()) {
        PutStep::Send(request) => request,
        PutStep::Done => panic!("the database is remote"),
    };
    assert_eq!(request.table_name, "t");
    assert_eq!(label_get(&request.key, "id"), Some(&Attribute::B(b"k".to_vec())));
    assert_eq!(request.key.entries().len(), 1);
    let values = &request.expression_attribute_values;
    assert_eq!(label_get(values, ":value"), Some(&Attribute::B(b"v".to_vec())));
    assert_eq!(label_get(values, ":one"), Some(&Attribute::N("1".to_string())));
    assert_eq!(values.entries().len(), 2);
    assert_eq!(request.update_expression, "ADD version :one SET object_value = :value");
    assert_eq!(
        storage.get_all_writes(),
        vec![json("{\"key\": [107], \"value\": [118], \"table\": \"t\"}")]
    );
}

#[test]
fn a_get_from_the_database_is_a_consistent_read() {
    let storage = DynamoStore::new();
    let request = match storage.get("t".to_string(), &b"k".to_vec()) {
        GetStep::Send(request) => request,
        GetStep::Done(_) => panic!("the database is remote"),
    };
    assert_eq!(request.table_name, "t");
    assert_eq!(label_get(&request.key, "id"), Some(&Attribute::B(b"k".to_vec())));
    assert!(request.consistent_read);
}

fn item(attributes: Vec<(&str, Attribute)>) -> Item {
    let mut item: Item = KeyedMap::new();
    for (name, attribute) in attributes {
        item.insert(name.to_string(), attribute);
    }
    item
}

#[test]
fn a_reply_to_a_get_needs_a_version_and_a_value() {
    let version = || Attribute::N("-12".to_string());
    let value = || Attribute::B(b"v".to_vec());
    assert_eq!(
        DynamoStore::finish_get(Some(item(vec![
            ("version", version()),
            ("object_value", value())
        ]))),
        Some((-12, b"v".to_vec()))
    );
    assert_eq!(DynamoStore::finish_get(None), None);
    assert_eq!(DynamoStore::finish_get(Some(item(vec![("version", version())]))), None);
    assert_eq!(DynamoStore::finish_get(Some(item(vec![("object_value", value())]))), None);
    assert_eq!(
        DynamoStore::finish_get(Some(item(vec![
            ("version", Attribute::N("1.5".to_string())),
            ("object_value", value())
        ]))),
        None
    );
    assert_eq!(
        DynamoStore::finish_get(Some(item(vec![
            ("version", version()),
            ("object_value", Attribute::Other)
        ]))),
        None
    );
}

#[test]
fn a_batch_of_gets_has_one_entry_for_each_table() {
    let storage = DynamoStore::new();
    let pairs = vec![
        ("t".to_string(), b"a".to_vec()),
        ("u".to_string(), b"b".to_vec()),
        ("t".to_string(), b"c".to_vec()),
    ];
    let entries = match storage.batch_get(&pairs) {
        BatchGetStep::Send(entries) => entries,
        BatchGetStep::Done(_) => panic!("the database is remote"),
    };
    assert_eq!(entries.len(), 2);
    assert_eq!(entries[0].table_name, "t");
    assert_eq!(entries[0].keys.len(), 2);
    assert_eq!(label_get(&entries[0].keys[1], "id"), Some(&Attribute::B(b"c".to_vec())));
    assert_eq!(entries[0].projection_expression, "id,version");
    assert!(entries[0].consistent_read);
    assert_eq!(entries[1].table_name, "u");
    assert_eq!(entries[1].keys.len(), 1);
}

#[test]
fn a_reply_to_a_batch_of_gets_tells_the_versions() {
    let responses = vec![(
        "t".to_string(),
        vec![
            item(vec![
                ("id", Attribute::B(b"a".to_vec())),
                ("version", Attribute::N("3".to_string())),
            ]),
            item(vec![("id", Attribute::B(b"b".to_vec()))]),
        ],
    )];
    assert!(DynamoStore::response_keyed(&responses));
    assert_eq!(
        DynamoStore::finish_batch_get(Some(responses)),
        vec![
            ("t".to_string(), b"a".to_vec(), Some(3)),
            ("t".to_string(), b"b".to_vec(), None),
        ]
    );
    assert!(DynamoStore::finish_batch_get(None).is_empty());
    assert!(!DynamoStore::response_keyed(&vec![("t".to_string(), vec![item(vec![])])]));
}

#[test]
fn updates_are_written_in_batches_of_twenty() {
    let mut storage = DynamoStore::new();
    let items: Vec<UpdateItem> =
        (0..41u8).map(|i| update("other", &[i], &[i, i], i as i64)).collect();
    let batches = match storage.batch_update(&items) {
        BatchUpdateStep::Send(batches) => batches,
        BatchUpdateStep::Done => panic!("the database is remote"),
    };
    let sizes: Vec<usize> = batches.iter().map(|batch| batch.items.len()).collect();
    assert_eq!(sizes, vec![20, 20, 1]);
    assert!(batches.iter().all(|batch| batch.table_name == "radical_testing"));
    let last = &batches[2].items[0];
    assert_eq!(label_get(last, "id"), Some(&Attribute::B(vec![40])));
    assert_eq!(label_get(last, "object_value"), Some(&Attribute::B(vec![40, 40])));
    assert_eq!(label_get(last, "version"), Some(&Attribute::N("40".to_string())));
    assert!(storage.get_all_writes().is_empty());
}

#[test]
fn full_batches_leave_no_empty_one() {
    let mut storage = DynamoStore::new();
    let items: Vec<UpdateItem> = (0..20u8).map(|i| update("t", &[i], &[i], 0)).collect();
    match storage.batch_update(&items) {
        BatchUpdateStep::Send(batches) => assert_eq!(batches.len(), 1),
        BatchUpdateStep::Done => panic!("the database is remote"),
    }
    match storage.batch_update(&Vec::new()) {
        BatchUpdateStep::Send(batches) => assert!(batches.is_empty()),
        BatchUpdateStep::Done => panic!("the database is remote"),
    }
}

#[test]
fn written_items_are_read_back() {
    let mut storage = DynamoStore::new();
    let written = match storage.batch_update(&vec![update("t", b"k", b"v", i64::MIN)]) {
        BatchUpdateStep::Send(mut batches) => batches.remove(0).items,
        BatchUpdateStep::Done => panic!("the database is remote"),
    };
    let responses = vec![("t".to_string(), written)];
    assert_eq!(
        DynamoStore::finish_batch_get(Some(responses)),
        vec![("t".to_string(), b"k".to_vec(), Some(i64::MIN))]
    );
    let written = match storage.batch_update(&vec![update("t", b"k", b"v", 5)]) {
        BatchUpdateStep::Send(mut batches) => batches.remove(0).items.remove(0),
        BatchUpdateStep::Done => panic!("the database is remote"),
    };
    assert_eq!(DynamoStore::finish_get(Some(written)), Some((5, b"v".to_vec())));
}

#[test]
fn the_provider_hands_on_to_its_backend() {
    let mut dummy = StorageProvider::Dummy(DummyStorage::new());
    assert!(matches!(
        dummy.try_put("t".to_string(), b"k".to_vec(), b"1".to_vec()),
        Some(PutStep::Done)
    ));
    assert_eq!(dummy.get_all_writes().len(), 1);
    match dummy.get("t".to_string(), &b"k".to_vec()) {
        GetStep::Done(stored) => assert_eq!(stored, Some((0, b"1".to_vec()))),
        GetStep::Send(_) => panic!("an in-memory backend sends nothing"),
    }
    dummy.reset_writes();
    assert!(dummy.get_all_writes().is_empty());
    assert!(dummy.try_put("t".to_string(), b"k".to_vec(), b"x".to_vec()).is_none());

    let mut dynamo = StorageProvider::Dynamo(DynamoStore::new());
    assert!(matches!(
        dynamo.try_put("t".to_string(), b"k".to_vec(), b"x".to_vec()),
        Some(PutStep::Send(_))
    ));
    assert!(matches!(dynamo.get("t".to_string(), &b"k".to_vec()), GetStep::Send(_)));
    assert!(matches!(dynamo.batch_get(&Vec::new()), BatchGetStep::Send(_)));
    assert!(matches!(dynamo.batch_update(&Vec::new()), BatchUpdateStep::Send(_)));
    dynamo.update_stale_keys(vec![stale_key("t", b"k")]);
    assert!(dynamo.is_key_stale("t", &b"k".to_vec()));
    assert_eq!(dynamo.get_stale_keys().len(), 1);
    dynamo.clear_stale_keys();
    assert!(!dynamo.is_key_stale("t", &b"k".to_vec()));
}

#[test]
fn a_stale_key_reads_as_absent_and_is_noted() {
    let mut dummy = DummyStorage::new();
    dummy.try_put("t".to_string(), b"k".to_vec(), b"1".to_vec()).unwrap();
    dummy.try_put("t".to_string(), b"l".to_vec(), b"2".to_vec()).unwrap();
    dummy.update_stale_keys(vec![stale_key("t", b"l")]);
    let mut wrapper = StorageWrapper::new(MyState { external_store: dummy });
    match wrapper.get("t".to_string(), &b"k".to_vec()) {
        GetStep::Done(stored) => assert_eq!(stored, Some((0, b"1".to_vec()))),
        other => panic!("{:?}", other),
    }
    assert!(!wrapper.encountered_stale);
    assert!(matches!(wrapper.get("t".to_string(), &b"l".to_vec()), GetStep::Done(None)));
    assert!(wrapper.encountered_stale);
    assert!(matches!(wrapper.get("t".to_string(), &b"k".to_vec()), GetStep::Done(Some(_))));
    assert!(wrapper.encountered_stale);
    assert_eq!(
        wrapper.read_keys,
        vec![
            ("t".to_string(), b"k".to_vec()),
            ("t".to_string(), b"l".to_vec()),
            ("t".to_string(), b"k".to_vec()),
        ]
    );
    assert!(wrapper.try_put("t".to_string(), b"m".to_vec(), b"3".to_vec()).is_some());
    wrapper.put("t".to_string(), b"m".to_vec(), b"4".to_vec());
    assert_eq!(wrapper.inner.get_all_writes().len(), 4);
    wrapper.inner.reset_writes();
    assert!(wrapper.inner.get_all_writes().is_empty());
}

#[test]
fn a_map_keeps_one_value_under_each_key() {
    let mut map: KeyedMap<String, u64> = KeyedMap::new();
    map.insert("b".to_string(), 1);
    map.insert("a".to_string(), 2);
    map.insert("b".to_string(), 3);
    assert_eq!(label_get(&map, "b"), Some(&3));
    assert_eq!(label_get(&map, "c"), None);
    let mut entries = map.entries().clone();
    entries.sort();
    assert_eq!(entries, vec![("a".to_string(), 2), ("b".to_string(), 3)]);
}

#[test]
fn a_value_is_stored_with_the_json_that_was_read() {
    let mut storage = DummyStorage::new();
    storage.store_value("t".to_string(), b"k".to_vec(), b"bytes".to_vec(), json("[true]"));
    storage.store_value("t".to_string(), b"k".to_vec(), b"more".to_vec(), Value::Null);
    assert_eq!(stored(&storage, "t", b"k"), Some((1, b"more".to_vec())));
    assert_eq!(
        storage.get_all_writes(),
        vec![
            json("{\"key\": [107], \"value\": [true], \"table\": \"t\"}"),
            json("{\"key\": [107], \"value\": null, \"table\": \"t\"}"),
        ]
    );
}

#[test]
fn shared_clones_see_each_others_values() {
    let mut storage = DummyStorage::new();
    storage.try_put("t".to_string(), b"a".to_vec(), b"1".to_vec()).unwrap();
    let mut clone = storage.share();
    storage.try_put("t".to_string(), b"b".to_vec(), b"2".to_vec()).unwrap();
    assert_eq!(clone.writes.len(), 1);

    storage.exchange(&mut clone);
    assert_eq!(stored(&storage, "t", b"b"), Some((0, b"2".to_vec())));
    assert_eq!(storage.get_all_writes().len(), 1);
    storage.try_put("t".to_string(), b"b".to_vec(), b"3".to_vec()).unwrap();
    assert_eq!(storage.get_all_writes().len(), 2);
    storage.exchange(&mut clone);

    assert_eq!(stored(&storage, "t", b"b"), Some((1, b"3".to_vec())));
    assert_eq!(
        storage.get_all_writes()[1],
        json("{\"key\": [98], \"value\": 2, \"table\": \"t\"}")
    );
    assert_eq!(storage.get_all_writes().len(), 2);
    assert_eq!(clone.writes[1], json("{\"key\": [98], \"value\": 3, \"table\": \"t\"}"));
}

#[test]
fn a_clone_starts_with_the_same() {
    let mut storage = DummyStorage::new();
    storage.try_put("t".to_string(), b"a".to_vec(), b"1".to_vec()).unwrap();
    storage.update_stale_keys(vec![stale_key("t", b"s")]);
    let clone = storage.share();
    assert_eq!(clone.writes, storage.get_all_writes());
    assert_eq!(clone.stale_keys, storage.get_stale_keys());

    let mut dynamo = DynamoStore::new();
    dynamo.put("t".to_string(), b"a".to_vec(), b"1".to_vec());
    dynamo.update_stale_keys(vec![stale_key("t", b"s")]);
    let copy = dynamo.clone();
    assert_eq!(copy.get_all_writes(), dynamo.get_all_writes());
    assert!(copy.is_key_stale("t", &b"s".to_vec()));
}

#[test]
fn clones_of_the_provider_share_values() {
    let mut provider = StorageProvider::Dummy(DummyStorage::new());
    let mut clone = provider.share();
    provider.exchange(&mut clone);
    provider.try_put("t".to_string(), b"a".to_vec(), b"1".to_vec()).unwrap();
    assert_eq!(provider.get_all_writes().len(), 1);
    provider.exchange(&mut clone);
    assert!(provider.get_all_writes().is_empty());
    match provider.get("t".to_string(), &b"a".to_vec()) {
        GetStep::Done(stored) => assert_eq!(stored, Some((0, b"1".to_vec()))),
        GetStep::Send(_) => panic!("an in-memory backend sends nothing"),
    }
    match clone {
        StorageClone::Dummy(clone) => assert_eq!(clone.writes.len(), 1),
        other => panic!("{:?}", other),
    }

    let mut dynamo = StorageProvider::Dynamo(DynamoStore::new());
    let mut clone = dynamo.share();
    dynamo.try_put("t".to_string(), b"a".to_vec(), b"1".to_vec()).unwrap();
    dynamo.exchange(&mut clone);
    assert!(dynamo.get_all_writes().is_empty());
    let mut other = provider.share();
    dynamo.exchange(&mut other);
    assert!(matches!(other, StorageClone::Dummy(_)));
    dynamo.exchange(&mut clone);
    assert_eq!(dynamo.get_all_writes().len(), 1);
}

#[test]
fn updates_through_a_clone_leave_the_records() {
    let mut storage = DummyStorage::new();
    storage.try_put("t".to_string(), b"a".to_vec(), b"1".to_vec()).unwrap();
    let items = vec![update("t", b"a", b"2", 0), update("t", b"b", b"3", 0)];
    assert!(matches!(storage.update_through_clone(&items), Some(BatchUpdateStep::Done)));
    assert_eq!(stored(&storage, "t", b"a"), Some((1, b"2".to_vec())));
    assert_eq!(stored(&storage, "t", b"b"), Some((0, b"3".to_vec())));
    assert_eq!(storage.get_all_writes().len(), 1);
    let items = vec![update("t", b"a", b"4", 0), update("t", b"b", b"[", 0)];
    assert!(storage.update_through_clone(&items).is_none());
    assert_eq!(stored(&storage, "t", b"a"), Some((1, b"2".to_vec())));
}
