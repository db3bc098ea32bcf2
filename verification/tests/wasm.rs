use radical::blob::{EntryCall, WasmBlob};
use radical::dummy::DummyStorage;
use radical::dynamo::DynamoStore;
use radical::provider::StorageProvider;
use radical::storage::{GetStep, PutStep, StaleKeyInfo, Storage};
use radical::wasm::{
    read_result_from_wasm, result_readable, write_args, GetKeyCall, MemoryAccessError, MyState,
    PutKeyCall,
};

fn place(memory: &mut Vec<u8>, at: usize, bytes: &[u8]) {
    memory[at..at + bytes.len()].copy_from_slice(bytes);
}

#[test]
fn arguments_stand_behind_the_result_header() {
    let mut memory = vec![7u8; 16];
    assert_eq!(write_args(&mut memory, b"{}"), Ok(()));
    assert_eq!(&memory[..8], &[7; 8]);
    assert_eq!(&memory[8..10], b"{}");
    assert_eq!(&memory[10..], &[7; 6]);
}

#[test]
fn arguments_need_room() {
    let mut memory = vec![7u8; 10];
    assert_eq!(write_args(&mut memory, b"abc"), Err(MemoryAccessError));
    assert_eq!(memory, vec![7u8; 10]);
    assert_eq!(write_args(&mut memory, b"ab"), Ok(()));
    let mut tiny = vec![0u8; 7];
    assert_eq!(write_args(&mut tiny, b""), Err(MemoryAccessError));
}

#[test]
fn a_result_is_found_behind_its_header() {
    let mut memory = vec![0u8; 300];
    place(&mut memory, 0, &[0x04, 0x01, 0, 0, 3, 0, 0, 0]);
    place(&mut memory, 260, b"xyz");
    assert!(result_readable(&memory, 0));
    assert_eq!(read_result_from_wasm(&memory, 0), Ok(b"xyz".to_vec()));
}

#[test]
fn a_header_needs_room() {
    let memory = vec![0u8; 7];
    assert!(result_readable(&memory, 0));
    assert_eq!(read_result_from_wasm(&memory, 0), Err(MemoryAccessError));
    let memory = vec![0u8; 12];
    assert_eq!(read_result_from_wasm(&memory, 4), Ok(Vec::new()));
    assert_eq!(read_result_from_wasm(&memory, 5), Err(MemoryAccessError));
    assert_eq!(read_result_from_wasm(&memory, usize::MAX), Err(MemoryAccessError));
}

#[test]
fn a_result_outside_of_the_memory_is_not_readable() {
    let mut memory = vec![0u8; 16];
    place(&mut memory, 0, &[10, 0, 0, 0, 7, 0, 0, 0]);
    assert!(!result_readable(&memory, 0));
    place(&mut memory, 0, &[0, 0, 0, 0x80, 0, 0, 0, 0]);
    assert!(!result_readable(&memory, 0));
    place(&mut memory, 0, &[16, 0, 0, 0, 0, 0, 0, 0]);
    assert!(result_readable(&memory, 0));
}

#[test]
fn a_value_is_left_at_the_end_of_the_memory() {
    let call =
        GetKeyCall { result_base: 4, table_base: 16, table_len: 1, key_base: 17, key_len: 2 };
    let mut memory = vec![0u8; 600];
    place(&mut memory, 16, b"tkk");
    assert!(call.is_readable(&memory));
    assert_eq!(call.read(&memory), ("t".to_string(), b"kk".to_vec()));
    let found = Some((9, b"value".to_vec()));
    assert!(call.is_answerable(&memory, &found));
    call.answer(&mut memory, found);
    assert_eq!(&memory[595..], b"value");
    // 595 is 0x253.
    assert_eq!(&memory[4..12], &[0x53, 0x02, 0, 0, 5, 0, 0, 0]);
    assert_eq!(&memory[16..19], b"tkk");
    assert_eq!(read_result_from_wasm(&memory, 4), Ok(b"value".to_vec()));
}

#[test]
fn an_unknown_key_reads_as_nothing() {
    let call = GetKeyCall { result_base: 0, table_base: 0, table_len: 0, key_base: 0, key_len: 0 };
    let mut memory = vec![1u8; 32];
    call.answer(&mut memory, None);
    assert_eq!(&memory[..8], &[32, 0, 0, 0, 0, 0, 0, 0]);
    assert_eq!(read_result_from_wasm(&memory, 0), Ok(Vec::new()));
}

#[test]
fn a_value_needs_room_with_its_header() {
    let memory = vec![0u8; 8];
    let at = |result_base: u32| GetKeyCall {
        result_base,
        table_base: 0,
        table_len: 0,
        key_base: 0,
        key_len: 0,
    };
    assert!(at(0).is_answerable(&memory, &Some((0, vec![0; 8]))));
    assert!(!at(0).is_answerable(&memory, &Some((0, vec![0; 9]))));
    assert!(!at(1).is_answerable(&memory, &None));
    assert!(!at(u32::MAX).is_answerable(&memory, &None));
}

#[test]
fn regions_outside_of_the_memory_are_not_readable() {
    let memory = vec![0u8; 8];
    let get = GetKeyCall { result_base: 0, table_base: 0, table_len: 8, key_base: 8, key_len: 0 };
    assert!(get.is_readable(&memory));
    let get = GetKeyCall { result_base: 0, table_base: 0, table_len: 9, key_base: 8, key_len: 0 };
    assert!(!get.is_readable(&memory));
    let put = PutKeyCall {
        table_base: 0,
        table_len: 1,
        key_base: 1,
        key_len: 1,
        value_base: u32::MAX,
        value_len: 1,
    };
    assert!(!put.is_readable(&memory));
}

#[test]
fn a_table_name_that_is_no_utf8_is_repaired() {
    let call = GetKeyCall { result_base: 0, table_base: 0, table_len: 3, key_base: 0, key_len: 3 };
    let memory = vec![b'a', 0xff, b'b'];
    assert_eq!(call.read(&memory), ("a\u{fffd}b".to_string(), vec![b'a', 0xff, b'b']));
}

#[test]
fn the_imports_reach_the_backend() {
    let mut state = MyState { external_store: DummyStorage::new() };
    let mut memory = vec![0u8; 32];
    place(&mut memory, 0, b"tab");
    place(&mut memory, 8, b"key");
    place(&mut memory, 16, b"[1]");
    let put = PutKeyCall {
        table_base: 0,
        table_len: 3,
        key_base: 8,
        key_len: 3,
        value_base: 16,
        value_len: 3,
    };
    assert_eq!(put.read(&memory), ("tab".to_string(), b"key".to_vec(), b"[1]".to_vec()));
    assert!(matches!(state.put_key(&memory, &put), Some(PutStep::Done)));
    assert_eq!(state.get_all_writes().len(), 1);
    let get = GetKeyCall { result_base: 0, table_base: 0, table_len: 3, key_base: 8, key_len: 3 };
    match state.get_key(&memory, &get) {
        GetStep::Done(stored) => assert_eq!(stored, Some((0, b"[1]".to_vec()))),
        GetStep::Send(_) => panic!("an in-memory backend sends nothing"),
    }
    place(&mut memory, 16, b"[1,");
    assert!(state.put_key(&memory, &put).is_none());
    assert_eq!(state.external_store.get_all_writes().len(), 1);
    state.reset_writes();
    assert!(state.get_all_writes().is_empty());
}

#[test]
fn a_function_is_started_with_its_arguments() {
    let mut store = DummyStorage::new();
    store.try_put("t".to_string(), b"k".to_vec(), b"1".to_vec()).unwrap();
    let mut blob = WasmBlob::setup_blob(store, false);
    let args: serde_json::Value = serde_json::from_str("[ 1, {} ]").unwrap();
    let mut memory = vec![0u8; 14];
    assert_eq!(
        WasmBlob::<DummyStorage>::setup_instance(&mut memory, &args),
        Ok(())
    );
    assert_eq!(&memory[8..], b"[1,{}]");
    let mut memory = vec![0u8; 13];
    assert_eq!(
        WasmBlob::<DummyStorage>::setup_instance(&mut memory, &args),
        Err(MemoryAccessError)
    );
    assert_eq!(memory, vec![0u8; 13]);
    assert_eq!(blob.guess_key(6), EntryCall { export: "key_guess", args: (0, 8, 6) });
    assert_eq!(blob.store.inner.get_all_writes().len(), 1);
    assert_eq!(blob.run_blob(6), EntryCall { export: "entry", args: (0, 8, 6) });
    assert!(blob.store.inner.get_all_writes().is_empty());
}

#[test]
fn tracked_reads_are_noted() {
    let mut store = DummyStorage::new();
    store.try_put("t".to_string(), b"k".to_vec(), b"1".to_vec()).unwrap();
    store.update_stale_keys(vec![StaleKeyInfo {
        table: "t".to_string(),
        key: b"l".to_vec(),
        is_value_replicated: false,
    }]);
    let mut blob = WasmBlob::setup_blob(store, true);
    let call = |key_base: u32| GetKeyCall {
        result_base: 0,
        table_base: 0,
        table_len: 1,
        key_base,
        key_len: 1,
    };
    let memory = b"tkl".to_vec();
    match blob.get_key(&memory, &call(1)) {
        GetStep::Done(stored) => assert_eq!(stored, Some((0, b"1".to_vec()))),
        other => panic!("{:?}", other),
    }
    assert!(!blob.store.encountered_stale);
    assert!(matches!(blob.get_key(&memory, &call(2)), GetStep::Done(None)));
    assert!(blob.store.encountered_stale);
    assert_eq!(
        blob.store.read_keys,
        vec![("t".to_string(), b"k".to_vec()), ("t".to_string(), b"l".to_vec())]
    );
}

#[test]
fn untracked_reads_reach_stale_keys() {
    let mut store = DummyStorage::new();
    store.try_put("t".to_string(), b"k".to_vec(), b"1".to_vec()).unwrap();
    store.update_stale_keys(vec![StaleKeyInfo {
        table: "t".to_string(),
        key: b"k".to_vec(),
        is_value_replicated: false,
    }]);
    let mut blob = WasmBlob::setup_blob(store, false);
    let call = GetKeyCall { result_base: 0, table_base: 0, table_len: 1, key_base: 1, key_len: 1 };
    match blob.get_key(b"tk", &call) {
        GetStep::Done(stored) => assert_eq!(stored, Some((0, b"1".to_vec()))),
        other => panic!("{:?}", other),
    }
    assert!(!blob.store.encountered_stale);
    assert!(blob.store.read_keys.is_empty());
}

#[test]
fn the_imports_keep_the_kind_of_backend() {
    let mut state =
        MyState { external_store: StorageProvider::Dynamo(DynamoStore::new()) };
    let memory = b"tkv".to_vec();
    let put = PutKeyCall {
        table_base: 0,
        table_len: 1,
        key_base: 1,
        key_len: 1,
        value_base: 2,
        value_len: 1,
    };
    let get = GetKeyCall { result_base: 0, table_base: 0, table_len: 1, key_base: 1, key_len: 1 };
    assert!(matches!(state.put_key(&memory, &put), Some(PutStep::Send(_))));
    state.reset_writes();
    assert!(matches!(state.get_key(&memory, &get), GetStep::Send(_)));
}
