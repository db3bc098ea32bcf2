//! The DynamoDB backend: what its entries hold and how its replies are read.

use crate::bytes::{copy_bytes, pair_view, pair_views, text_eq};
use crate::json::{bytes_json, copy_values, json_from_bytes, json_views, JsonView};
use crate::keyed::{label_get, KeyedMap};
use crate::numbers::{
    int_text, law_version_text_round_trip, parse_version, version_text, version_value,
};
use crate::storage::{
    copy_stale, empty_store, find_stale, item_view, item_views, lemma_item_insert,
    make_write_record, stale_views, stored_view, update_views, version_view, version_views,
    write_record, Attribute, AttributeView, BatchGetStep, BatchGetStepView, BatchUpdateStep,
    BatchUpdateStepView, Contents, GetRequest, GetRequestView, GetStep, GetStepView, Item, ItemView,
    KeysEntry, KeysEntryView, PutStep, PutStepView, StaleKeyInfo, StaleKeyView, Storage,
    StoreView, UpdateItem, UpdateRequest, UpdateRequestView, UpdateView, Versions, WriteBatch,
    WriteBatchView,
};
use serde_json::Value;
use vstd::prelude::*;

verus! {

/// How many items one write request may hold.
pub const BATCH_SIZE: usize = 20;

/// The item that holds only a key.
pub open spec fn id_item(key: Seq<u8>) -> ItemView {
    map!["id"@ => AttributeView::B(key)]
}

/// The request that puts a value under a key and counts its version up.
pub open spec fn put_request(table: Seq<char>, key: Seq<u8>, value: Seq<u8>) -> UpdateRequestView {
    UpdateRequestView {
        table_name: table,
        key: id_item(key),
        expression_attribute_values: map![
            ":value"@ => AttributeView::B(value),
            ":one"@ => AttributeView::N("1"@),
        ],
        update_expression: "ADD version :one SET object_value = :value"@,
    }
}

/// The request that reads a key.
pub open spec fn get_request(table: Seq<char>, key: Seq<u8>) -> GetRequestView {
    GetRequestView { table_name: table, key: id_item(key), consistent_read: true }
}

/// Where the entry for a table stands, or how many entries there are.
pub open spec fn entry_index(entries: Seq<KeysEntryView>, table: Seq<char>) -> int
    decreases entries.len(),
{
    if entries.len() == 0 || entries[0].table_name == table {
        0
    } else {
        1 + entry_index(entries.skip(1), table)
    }
}

/// An entry for one key of a table.
pub open spec fn keys_entry(table: Seq<char>, key: Seq<u8>) -> KeysEntryView {
    KeysEntryView {
        table_name: table,
        keys: seq![id_item(key)],
        projection_expression: "id,version"@,
        consistent_read: true,
    }
}

/// The entries with one more key: it joins the entry for its table, or
/// starts a new one.
pub open spec fn add_key(
    entries: Seq<KeysEntryView>,
    table: Seq<char>,
    key: Seq<u8>,
) -> Seq<KeysEntryView> {
    let at = entry_index(entries, table);
    if at < entries.len() {
        entries.update(
            at,
            KeysEntryView { keys: entries[at].keys.push(id_item(key)), ..entries[at] },
        )
    } else {
        entries.push(keys_entry(table, key))
    }
}

/// The entries of the one request that reads the versions of several keys: one
/// for each table.
pub open spec fn keys_entries(pairs: Seq<(Seq<char>, Seq<u8>)>) -> Seq<KeysEntryView>
    decreases pairs.len(),
{
    if pairs.len() == 0 {
        Seq::empty()
    } else {
        add_key(keys_entries(pairs.drop_last()), pairs.last().0, pairs.last().1)
    }
}

/// The item that an update stores.
pub open spec fn put_item(update: UpdateView) -> ItemView {
    map![
        "id"@ => AttributeView::B(update.key),
        "object_value"@ => AttributeView::B(update.value),
        "version"@ => AttributeView::N(int_text(update.version as int)),
    ]
}

/// How many updates the batch with a number holds.
pub open spec fn batch_len(total: nat, batch: int) -> nat {
    if total - 20 * batch < 20 {
        (total - 20 * batch) as nat
    } else {
        20
    }
}

/// The batch with a number, of the updates in order.
pub open spec fn write_batch(items: Seq<UpdateView>, batch: int) -> WriteBatchView {
    WriteBatchView {
        table_name: "radical_testing"@,
        items: Seq::new(
            batch_len(items.len(), batch),
            |j: int| put_item(items[20 * batch + j]),
        ),
    }
}

/// The requests that apply updates: batches of twenty, the last one shorter
/// where the number of updates asks for it.
pub open spec fn write_batches(items: Seq<UpdateView>) -> Seq<WriteBatchView> {
    Seq::new((items.len() + 19) as nat / 20, |batch: int| write_batch(items, batch))
}

/// The version of a stored item.
pub open spec fn item_version(item: ItemView) -> Option<i64> {
    if item.contains_key("version"@) {
        match item["version"@] {
            AttributeView::N(text) => version_value(text),
            _ => None,
        }
    } else {
        None
    }
}

/// The value of a stored item.
pub open spec fn item_value(item: ItemView) -> Option<Seq<u8>> {
    if item.contains_key("object_value"@) {
        match item["object_value"@] {
            AttributeView::B(bytes) => Some(bytes),
            _ => None,
        }
    } else {
        None
    }
}

/// The key of a stored item.
pub open spec fn item_key(item: ItemView) -> Option<Seq<u8>> {
    if item.contains_key("id"@) {
        match item["id"@] {
            AttributeView::B(bytes) => Some(bytes),
            _ => None,
        }
    } else {
        None
    }
}

/// The version and the value of a stored item, where it has both.
pub open spec fn item_read(item: ItemView) -> Option<(i64, Seq<u8>)> {
    match (item_version(item), item_value(item)) {
        (Some(version), Some(value)) => Some((version, value)),
        _ => None,
    }
}

/// What a reply to a batch of gets holds: items by table.
pub open spec fn response_views(responses: Seq<(String, Vec<Item>)>) -> Seq<
    (Seq<char>, Seq<ItemView>),
> {
    responses.map_values(|entry: (String, Vec<Item>)| (entry.0@, item_views(entry.1@)))
}

/// Every item of a reply has a key.
pub open spec fn all_keyed(responses: Seq<(Seq<char>, Seq<ItemView>)>) -> bool {
    forall|t: int, i: int|
        0 <= t < responses.len() && 0 <= i < responses[t].1.len() ==> item_key(
            #[trigger] responses[t].1[i],
        ) is Some
}

/// The versions that the items of one table have.
pub open spec fn table_versions(table: Seq<char>, items: Seq<ItemView>) -> Seq<
    (Seq<char>, Seq<u8>, Option<i64>),
> {
    Seq::new(items.len(), |i: int| (table, item_key(items[i]).unwrap(), item_version(items[i])))
}

/// The versions that a reply to a batch of gets holds.
pub open spec fn response_versions(responses: Seq<(Seq<char>, Seq<ItemView>)>) -> Seq<
    (Seq<char>, Seq<u8>, Option<i64>),
>
    decreases responses.len(),
{
    if responses.len() == 0 {
        Seq::empty()
    } else {
        response_versions(responses.drop_last()) + table_versions(
            responses.last().0,
            responses.last().1,
        )
    }
}

/// Makes the item that holds only a key.
fn make_id_item(key: &Vec<u8>) -> (item: Item)
    ensures
        item_view(item@) == id_item(key@),
{
    let mut item: Item = KeyedMap::new();
    let attribute: Attribute = Attribute::B(copy_bytes(key.as_slice()));
    proof {
        lemma_item_insert(item@, "id"@, attribute);
        assert(item_view(item@) =~= Map::<Seq<char>, AttributeView>::empty());
    }
    item.insert("id".to_owned(), attribute);
    item
}

/// Makes the item that an update stores.
fn make_put_item(update: &UpdateItem) -> (item: Item)
    ensures
        item_view(item@) == put_item(update@),
{
    let mut item: Item = KeyedMap::new();
    let id: Attribute = Attribute::B(copy_bytes(update.key.as_slice()));
    let value: Attribute = Attribute::B(copy_bytes(update.value.as_slice()));
    let version: Attribute = Attribute::N(version_text(update.version));
    proof {
        let empty = item@;
        assert(item_view(empty) =~= Map::<Seq<char>, AttributeView>::empty());
        lemma_item_insert(empty, "id"@, id);
        lemma_item_insert(empty.insert("id"@, id), "object_value"@, value);
        lemma_item_insert(
            empty.insert("id"@, id).insert("object_value"@, value),
            "version"@,
            version,
        );
    }
    item.insert("id".to_owned(), id);
    item.insert("object_value".to_owned(), value);
    item.insert("version".to_owned(), version);
    item
}

/// The version of a stored item.
fn read_version(item: &Item) -> (version: Option<i64>)
    ensures
        version == item_version(item_view(item@)),
{
    match label_get(item, "version") {
        Some(Attribute::N(text)) => parse_version(text.as_str()),
        _ => None,
    }
}

/// The key of a stored item.
fn read_key(item: &Item) -> (key: Option<Vec<u8>>)
    ensures
        match key {
            Some(bytes) => item_key(item_view(item@)) == Some(bytes@),
            None => item_key(item_view(item@)) is None,
        },
{
    match label_get(item, "id") {
        Some(Attribute::B(bytes)) => Some(copy_bytes(bytes.as_slice())),
        _ => None,
    }
}

/// The DynamoDB backend, without its connection.
#[derive(Debug)]
pub struct DynamoStore {
    pub all_writes: Vec<Value>,
    pub stale_keys: Vec<StaleKeyInfo>,
}

impl Clone for DynamoStore {
    /// A backend with the same records and the same stale keys. The values are
    /// in the database, so both see the same ones.
    fn clone(&self) -> (copy: Self)
        ensures
            copy.held() == self.held(),
    {
        DynamoStore {
            all_writes: copy_values(&self.all_writes),
            stale_keys: copy_stale(&self.stale_keys),
        }
    }
}

impl DynamoStore {
    /// A backend that has recorded no write and knows no stale key.
    pub fn new() -> (store: Self)
        ensures
            store.held() == empty_store(),
    {
        let store: DynamoStore = DynamoStore { all_writes: Vec::new(), stale_keys: Vec::new() };
        assert(store.held().writes =~= Seq::<JsonView>::empty());
        assert(store.held().stale =~= Seq::<StaleKeyView>::empty());
        store
    }

    /// Reads the version and the value from the reply to a get. A missing item,
    /// or one without a readable version or value, counts as absent.
    pub fn finish_get(item: Option<Item>) -> (stored: Option<(i64, Vec<u8>)>)
        ensures
            stored_view(stored) == match item {
                Some(i) => item_read(item_view(i@)),
                None => None,
            },
    {
        match item {
            Some(item) => match read_version(&item) {
                Some(version) => match label_get(&item, "object_value") {
                    Some(Attribute::B(bytes)) => Some((version, copy_bytes(bytes.as_slice()))),
                    _ => None,
                },
                None => None,
            },
            None => None,
        }
    }

    /// Whether every item of a reply to a batch of gets has a key.
    pub fn response_keyed(responses: &Vec<(String, Vec<Item>)>) -> (keyed: bool)
        ensures
            keyed == all_keyed(response_views(responses@)),
    {
        let ghost views = response_views(responses@);
        let mut t: usize = 0;
        while t < responses.len()
            invariant
                t <= responses.len(),
                views == response_views(responses@),
                forall|u: int, i: int|
                    0 <= u < t && 0 <= i < views[u].1.len() ==> item_key(
                        #[trigger] views[u].1[i],
                    ) is Some,
            decreases responses.len() - t,
        {
            let items: &Vec<Item> = &responses[t].1;
            let mut i: usize = 0;
            while i < items.len()
                invariant
                    i <= items.len(),
                    t < responses.len(),
                    views == response_views(responses@),
                    views[t as int].1 == item_views(items@),
                    forall|j: int|
                        0 <= j < i ==> item_key(#[trigger] views[t as int].1[j]) is Some,
                decreases items.len() - i,
            {
                if read_key(&items[i]).is_none() {
                    assert(item_key(views[t as int].1[i as int]) is None);
                    return false;
                }
                i = i + 1;
            }
            t = t + 1;
        }
        true
    }

    /// Reads the versions from the reply to a batch of gets. Where there is no
    /// reply there are no versions.
    pub fn finish_batch_get(responses: Option<Vec<(String, Vec<Item>)>>) -> (versions: Versions)
        requires
            responses matches Some(r) ==> all_keyed(response_views(r@)),
        ensures
            version_views(versions@) == match responses {
                Some(r) => response_versions(response_views(r@)),
                None => Seq::empty(),
            },
    {
        let mut versions: Versions = Vec::new();
        assert(version_views(versions@) =~= Seq::empty());
        if let Some(responses) = &responses {
            let ghost views = response_views(responses@);
            let mut t: usize = 0;
            assert(views.take(0) =~= Seq::empty());
            while t < responses.len()
                invariant
                    t <= responses.len(),
                    views == response_views(responses@),
                    all_keyed(views),
                    version_views(versions@) == response_versions(views.take(t as int)),
                decreases responses.len() - t,
            {
                let table: &String = &responses[t].0;
                let items: &Vec<Item> = &responses[t].1;
                let ghost before = version_views(versions@);
                let mut i: usize = 0;
                assert(table_versions(table@, item_views(items@).take(0)) =~= Seq::empty());
                while i < items.len()
                    invariant
                        i <= items.len(),
                        t < responses.len(),
                        views == response_views(responses@),
                        all_keyed(views),
                        views[t as int] == (table@, item_views(items@)),
                        version_views(versions@) == before + table_versions(
                            table@,
                            item_views(items@).take(i as int),
                        ),
                    decreases items.len() - i,
                {
                    assert(item_key(views[t as int].1[i as int]) is Some);
                    assert(item_views(items@)[i as int] == item_view(items@[i as int]@));
                    if let Some(key) = read_key(&items[i]) {
                        let ghost old_versions = versions@;
                        let entry: (String, Vec<u8>, Option<i64>) = (
                            table.clone(),
                            key,
                            read_version(&items[i]),
                        );
                        versions.push(entry);
                        proof {
                            let now = item_views(items@).take(i + 1);
                            assert(version_views(versions@) =~= version_views(old_versions).push(
                                version_view(entry),
                            ));
                            assert(table_versions(table@, now) =~= table_versions(
                                table@,
                                item_views(items@).take(i as int),
                            ).push(version_view(entry)));
                            assert(version_views(versions@) =~= before + table_versions(
                                table@,
                                now,
                            ));
                        }
                    }
                    i = i + 1;
                }
                assert(item_views(items@).take(i as int) =~= item_views(items@));
                assert(views.take(t + 1).drop_last() =~= views.take(t as int));
                t = t + 1;
            }
            assert(views.take(t as int) =~= views);
        }
        versions
    }
}

/// The first entry for a table stands where [`entry_index`] says.
proof fn lemma_entry_index(entries: Seq<KeysEntryView>, table: Seq<char>, at: int)
    requires
        0 <= at <= entries.len(),
        forall|j: int| 0 <= j < at ==> (#[trigger] entries[j]).table_name != table,
        at < entries.len() ==> entries[at].table_name == table,
    ensures
        entry_index(entries, table) == at,
    decreases entries.len(),
{
    if at > 0 {
        assert(entries[0].table_name != table);
        let rest = entries.skip(1);
        assert forall|j: int| 0 <= j < at - 1 implies (#[trigger] rest[j]).table_name != table by {
            assert(entries[j + 1].table_name != table);
        }
        lemma_entry_index(rest, table, at - 1);
    }
}

/// The views of a list of entries.
pub open spec fn keys_entry_views(entries: Seq<KeysEntry>) -> Seq<KeysEntryView> {
    entries.map_values(|entry: KeysEntry| entry@)
}

/// Adds a key to the entries: to the one for its table, or in a new one.
fn push_key(entries: &mut Vec<KeysEntry>, table: &String, key: &Vec<u8>)
    ensures
        keys_entry_views(final(entries)@) == add_key(
            keys_entry_views(old(entries)@),
            table@,
            key@,
        ),
{
    let ghost before = keys_entry_views(entries@);
    let item: Item = make_id_item(key);
    let mut i: usize = 0;
    while i < entries.len()
        invariant
            i <= entries.len(),
            before == keys_entry_views(entries@),
            forall|j: int| 0 <= j < i ==> (#[trigger] before[j]).table_name != table@,
        ensures
            i < entries.len() ==> before[i as int].table_name == table@,
        decreases entries.len() - i,
    {
        if text_eq(entries[i].table_name.as_str(), table.as_str()) {
            assert(before[i as int].table_name == table@);
            break;
        }
        assert(before[i as int].table_name != table@);
        i = i + 1;
    }
    if i < entries.len() {
        let mut entry: KeysEntry = entries.remove(i);
        let ghost keys = entry.keys@;
        entry.keys.push(item);
        assert(item_views(entry.keys@) =~= item_views(keys).push(item_view(item@)));
        entries.insert(i, entry);
    } else {
        let mut keys: Vec<Item> = Vec::new();
        keys.push(item);
        assert(item_views(keys@) =~= seq![item_view(item@)]);
        entries.push(
            KeysEntry {
                table_name: table.clone(),
                keys,
                projection_expression: "id,version".to_owned(),
                consistent_read: true,
            },
        );
    }
    proof {
        lemma_entry_index(before, table@, i as int);
        assert(keys_entry_views(entries@) =~= add_key(before, table@, key@));
    }
}

impl Storage for DynamoStore {
    type Shared = DynamoStore;

    open spec fn held_by(clone: &DynamoStore, values: Contents) -> StoreView {
        StoreView { store: values, ..clone.held() }
    }

    open spec fn has_clone(&self, clone: &DynamoStore) -> bool {
        true
    }

    open spec fn held(&self) -> StoreView {
        StoreView {
            store: Map::empty(),
            writes: json_views(self.all_writes@),
            stale: stale_views(self.stale_keys@),
        }
    }

    open spec fn same_kind(&self, other: &Self) -> bool {
        true
    }

    open spec fn can_put(&self, table: Seq<char>, key: Seq<u8>, value: Seq<u8>) -> bool {
        true
    }

    open spec fn can_update(&self, items: Seq<UpdateView>) -> bool {
        true
    }

    open spec fn held_after_put(
        &self,
        table: Seq<char>,
        key: Seq<u8>,
        value: Seq<u8>,
    ) -> StoreView {
        StoreView {
            writes: self.held().writes.push(write_record(table, key, bytes_json(value))),
            ..self.held()
        }
    }

    open spec fn held_after_update(&self, items: Seq<UpdateView>) -> StoreView {
        self.held()
    }

    open spec fn put_result(
        &self,
        table: Seq<char>,
        key: Seq<u8>,
        value: Seq<u8>,
    ) -> PutStepView {
        PutStepView::Send(put_request(table, key, value))
    }

    open spec fn get_result(&self, table: Seq<char>, key: Seq<u8>) -> GetStepView {
        GetStepView::Send(get_request(table, key))
    }

    open spec fn batch_get_result(&self, pairs: Seq<(Seq<char>, Seq<u8>)>) -> BatchGetStepView {
        BatchGetStepView::Send(keys_entries(pairs))
    }

    open spec fn batch_update_result(&self, items: Seq<UpdateView>) -> BatchUpdateStepView {
        BatchUpdateStepView::Send(write_batches(items))
    }

    fn share(&self) -> (clone: DynamoStore) {
        self.clone()
    }

    fn exchange(&mut self, clone: &mut DynamoStore) {
        std::mem::swap(self, clone);
    }

    fn put(&mut self, table: String, key: Vec<u8>, value: Vec<u8>) -> (step: PutStep) {
        let recorded: Value = json_from_bytes(copy_bytes(value.as_slice()));
        let record: Value = make_write_record(table.as_str(), &key, recorded);
        let ghost before = self.all_writes@;
        self.all_writes.push(record);
        assert(json_views(self.all_writes@) =~= json_views(before).push(
            write_record(table@, key@, bytes_json(value@)),
        ));
        let id: Item = make_id_item(&key);
        let mut values: Item = KeyedMap::new();
        let ghost empty = values@;
        let new_value: Attribute = Attribute::B(value);
        let one: Attribute = Attribute::N("1".to_owned());
        proof {
            assert(item_view(empty) =~= Map::<Seq<char>, AttributeView>::empty());
            lemma_item_insert(empty, ":value"@, new_value);
            lemma_item_insert(empty.insert(":value"@, new_value), ":one"@, one);
        }
        values.insert(":value".to_owned(), new_value);
        values.insert(":one".to_owned(), one);
        PutStep::Send(
            UpdateRequest {
                table_name: table,
                key: id,
                expression_attribute_values: values,
                update_expression: "ADD version :one SET object_value = :value".to_owned(),
            },
        )
    }

    fn try_put(&mut self, table: String, key: Vec<u8>, value: Vec<u8>) -> (step: Option<PutStep>) {
        Some(self.put(table, key, value))
    }

    fn get(&self, table: String, key: &Vec<u8>) -> (step: GetStep) {
        GetStep::Send(
            GetRequest { table_name: table, key: make_id_item(key), consistent_read: true },
        )
    }

    fn batch_get(&self, table_key_pairs: &Vec<(String, Vec<u8>)>) -> (step: BatchGetStep) {
        let ghost pairs = pair_views(table_key_pairs@);
        let mut entries: Vec<KeysEntry> = Vec::new();
        let mut i: usize = 0;
        assert(pairs.take(0) =~= Seq::empty());
        assert(keys_entry_views(entries@) =~= Seq::empty());
        while i < table_key_pairs.len()
            invariant
                i <= table_key_pairs.len(),
                pairs == pair_views(table_key_pairs@),
                keys_entry_views(entries@) == keys_entries(pairs.take(i as int)),
            decreases table_key_pairs.len() - i,
        {
            push_key(&mut entries, &table_key_pairs[i].0, &table_key_pairs[i].1);
            assert(pairs.take(i + 1).drop_last() =~= pairs.take(i as int));
            assert(pairs.take(i + 1).last() == pair_view(table_key_pairs@[i as int]));
            i = i + 1;
        }
        assert(pairs.take(i as int) =~= pairs);
        BatchGetStep::Send(entries)
    }

    fn batch_update(&mut self, table_key_pairs: &Vec<UpdateItem>) -> (step: BatchUpdateStep)
        ensures
            *final(self) == *old(self),
    {
        let ghost items = update_views(table_key_pairs@);
        let mut batches: Vec<WriteBatch> = Vec::new();
        let mut start: usize = 0;
        while start < table_key_pairs.len()
            invariant
                items == update_views(table_key_pairs@),
                batches.len() * 20 == start || (start == table_key_pairs.len() && (batches.len()
                    - 1) * 20 < start < batches.len() * 20),
                start <= table_key_pairs.len(),
                forall|b: int|
                    0 <= b < batches.len() ==> (#[trigger] batches@[b])@ == write_batch(items, b),
            decreases table_key_pairs.len() - start,
        {
            let end: usize = if table_key_pairs.len() - start < BATCH_SIZE {
                table_key_pairs.len()
            } else {
                start + BATCH_SIZE
            };
            let ghost batch = batches.len() as int;
            let mut put_items: Vec<Item> = Vec::new();
            let mut i: usize = start;
            while i < end
                invariant
                    start <= i <= end <= table_key_pairs.len(),
                    items == update_views(table_key_pairs@),
                    start == 20 * batch,
                    put_items.len() == i - start,
                    forall|j: int|
                        0 <= j < put_items.len() ==> item_view((#[trigger] put_items@[j])@)
                            == put_item(items[20 * batch + j]),
                decreases end - i,
            {
                let item: Item = make_put_item(&table_key_pairs[i]);
                assert(items[i as int] == table_key_pairs@[i as int]@);
                put_items.push(item);
                i = i + 1;
            }
            assert(item_views(put_items@) =~= write_batch(items, batch).items);
            batches.push(
                WriteBatch { table_name: "radical_testing".to_owned(), items: put_items },
            );
            start = end;
        }
        assert(batches@.map_values(|batch: WriteBatch| batch@) =~= write_batches(items));
        BatchUpdateStep::Send(batches)
    }

    fn try_batch_update(&mut self, table_key_pairs: &Vec<UpdateItem>) -> (step: Option<
        BatchUpdateStep,
    >) {
        Some(self.batch_update(table_key_pairs))
    }

    fn reset_writes(&mut self) {
        self.all_writes.clear();
        assert(json_views(self.all_writes@) =~= Seq::<JsonView>::empty());
    }

    fn get_all_writes(&self) -> (writes: Vec<Value>) {
        copy_values(&self.all_writes)
    }

    fn is_key_stale(&self, table: &str, key: &Vec<u8>) -> (stale: bool) {
        find_stale(&self.stale_keys, table, key)
    }

    fn update_stale_keys(&mut self, stale_keys: Vec<StaleKeyInfo>) {
        self.stale_keys = stale_keys;
    }

    fn get_stale_keys(&self) -> (keys: Vec<StaleKeyInfo>) {
        copy_stale(&self.stale_keys)
    }

    fn clear_stale_keys(&mut self) {
        self.stale_keys.clear();
        assert(stale_views(self.stale_keys@) =~= Seq::<StaleKeyView>::empty());
    }
}

/// The keys that a list of pairs holds for one table, in order.
pub open spec fn keys_of(pairs: Seq<(Seq<char>, Seq<u8>)>, table: Seq<char>) -> Seq<Seq<u8>>
    decreases pairs.len(),
{
    if pairs.len() == 0 {
        Seq::empty()
    } else if pairs.last().0 == table {
        keys_of(pairs.drop_last(), table).push(pairs.last().1)
    } else {
        keys_of(pairs.drop_last(), table)
    }
}

/// The entry index points at the table's entry, or behind all of them.
proof fn lemma_entry_index_bounds(entries: Seq<KeysEntryView>, table: Seq<char>)
    ensures
        0 <= entry_index(entries, table) <= entries.len(),
        entry_index(entries, table) < entries.len() ==> entries[entry_index(
            entries,
            table,
        )].table_name == table,
        forall|j: int|
            0 <= j < entry_index(entries, table) ==> (#[trigger] entries[j]).table_name
                != table,
    decreases entries.len(),
{
    if entries.len() > 0 && entries[0].table_name != table {
        let rest = entries.skip(1);
        lemma_entry_index_bounds(rest, table);
        assert forall|j: int| 0 <= j < entry_index(entries, table) implies (
        #[trigger] entries[j]).table_name != table by {
            if j > 0 {
                assert(rest[j - 1].table_name != table);
            }
        }
    }
}

/// A batch of gets asks for every key exactly where it belongs: its request has
/// one entry for each table that occurs, which asks for the keys of that table
/// in their order, for their versions only and with consistent reads.
pub proof fn law_batch_get_groups_by_table(pairs: Seq<(Seq<char>, Seq<u8>)>)
    ensures
        forall|i: int, j: int|
            0 <= i < j < keys_entries(pairs).len() ==> (#[trigger] keys_entries(
                pairs,
            )[i]).table_name != (#[trigger] keys_entries(pairs)[j]).table_name,
        forall|i: int|
            0 <= i < keys_entries(pairs).len() ==> {
                let entry = #[trigger] keys_entries(pairs)[i];
                let keys = keys_of(pairs, entry.table_name);
                &&& entry.keys == keys.map_values(|key: Seq<u8>| id_item(key))
                &&& keys.len() > 0
                &&& entry.projection_expression == "id,version"@
                &&& entry.consistent_read
            },
        forall|p: int|
            0 <= p < pairs.len() ==> exists|i: int|
                0 <= i < keys_entries(pairs).len() && (#[trigger] keys_entries(
                    pairs,
                )[i]).table_name == (#[trigger] pairs[p]).0,
    decreases pairs.len(),
{
    if pairs.len() > 0 {
        let rest = pairs.drop_last();
        let (table, key) = pairs.last();
        law_batch_get_groups_by_table(rest);
        let before = keys_entries(rest);
        let after = keys_entries(pairs);
        lemma_entry_index_bounds(before, table);
        let at = entry_index(before, table);
        assert(after[at].table_name == table);
        assert forall|i: int, j: int| 0 <= i < j < after.len() implies (
        #[trigger] after[i]).table_name != (#[trigger] after[j]).table_name by {
            if j < before.len() {
                assert(before[i].table_name != before[j].table_name);
            }
        }
        assert forall|i: int| 0 <= i < after.len() implies {
            let entry = #[trigger] after[i];
            let keys = keys_of(pairs, entry.table_name);
            &&& entry.keys == keys.map_values(|key: Seq<u8>| id_item(key))
            &&& keys.len() > 0
            &&& entry.projection_expression == "id,version"@
            &&& entry.consistent_read
        } by {
            let entry = after[i];
            let keys = keys_of(pairs, entry.table_name);
            if i < before.len() {
                let old_entry = before[i];
                if i != at {
                    assert(entry.table_name != table) by {
                        if at < before.len() {
                            if i < at {
                                assert(before[i].table_name != before[at].table_name);
                            } else {
                                assert(before[at].table_name != before[i].table_name);
                            }
                        }
                    }
                }
            } else {
                assert(keys_of(rest, table).len() == 0) by {
                    if keys_of(rest, table).len() > 0 {
                        lemma_keys_of_member(rest, table);
                        let p = choose|p: int| 0 <= p < rest.len() && (#[trigger] rest[p]).0
                            == table;
                        let k = choose|k: int|
                            0 <= k < before.len() && (#[trigger] before[k]).table_name
                                == rest[p].0;
                        assert(before[k].table_name != table);
                    }
                }
            }
            assert(entry.keys =~= keys.map_values(|key: Seq<u8>| id_item(key)));
        }
        assert forall|p: int| 0 <= p < pairs.len() implies exists|i: int|
            0 <= i < after.len() && (#[trigger] after[i]).table_name == (
            #[trigger] pairs[p]).0 by {
            if p < rest.len() {
                assert(rest[p] == pairs[p]);
                let k = choose|k: int|
                    0 <= k < before.len() && (#[trigger] before[k]).table_name == rest[p].0;
                assert(after[k].table_name == pairs[p].0);
            } else {
                assert(after[at].table_name == pairs[p].0);
            }
        }
    }
}

/// A table that has keys among the pairs occurs among them.
proof fn lemma_keys_of_member(pairs: Seq<(Seq<char>, Seq<u8>)>, table: Seq<char>)
    requires
        keys_of(pairs, table).len() > 0,
    ensures
        exists|p: int| 0 <= p < pairs.len() && (#[trigger] pairs[p]).0 == table,
    decreases pairs.len(),
{
    if pairs.last().0 == table {
        assert(pairs[pairs.len() - 1].0 == table);
    } else {
        let rest = pairs.drop_last();
        lemma_keys_of_member(rest, table);
        let p = choose|p: int| 0 <= p < rest.len() && (#[trigger] rest[p]).0 == table;
        assert(pairs[p].0 == table);
    }
}

/// What the batches of a list of updates hold, one after the other.
pub open spec fn batched_items(batches: Seq<WriteBatchView>) -> Seq<ItemView> {
    batches.map_values(|batch: WriteBatchView| batch.items).flatten()
}

/// A batch of updates is complete and in order: its requests hold one item for
/// each update, in the order of the updates. No request is empty, none holds
/// more than twenty items, and only the last one may hold fewer.
pub proof fn law_batches_hold_every_update(items: Seq<UpdateView>)
    ensures
        batched_items(write_batches(items)) == items.map_values(
            |item: UpdateView| put_item(item),
        ),
        forall|b: int|
            0 <= b < write_batches(items).len() ==> {
                let batch = #[trigger] write_batches(items)[b];
                &&& 0 < batch.items.len() <= 20
                &&& b + 1 < write_batches(items).len() ==> batch.items.len() == 20
                &&& batch.table_name == "radical_testing"@
            },
    decreases items.len(),
{
    let batches = write_batches(items);
    let lists = batches.map_values(|batch: WriteBatchView| batch.items);
    if items.len() == 0 {
        assert(lists =~= Seq::<Seq<ItemView>>::empty());
        assert(batched_items(batches) =~= items.map_values(|item: UpdateView| put_item(item)));
    } else {
        let first = if items.len() < 20 {
            items.len() as int
        } else {
            20
        };
        let rest = items.skip(first);
        law_batches_hold_every_update(rest);
        let rest_batches = write_batches(rest);
        let rest_lists = rest_batches.map_values(|batch: WriteBatchView| batch.items);
        assert(batches.len() == rest_batches.len() + 1);
        assert(lists.drop_first() =~= rest_lists) by {
            assert forall|b: int| 0 <= b < rest_batches.len() implies batches[b + 1].items
                == #[trigger] rest_batches[b].items by {
                assert(batches[b + 1].items =~= rest_batches[b].items);
            }
        }
        assert(lists.flatten() == lists.first() + lists.drop_first().flatten());
        assert(lists.first() + batched_items(rest_batches) =~= items.map_values(
            |item: UpdateView| put_item(item),
        ));
    }
}

/// What is written is read back: the item that an update stores has the key,
/// the version and the value of the update.
pub proof fn law_read_after_write(update: UpdateView)
    ensures
        item_read(put_item(update)) == Some((update.version, update.value)),
        item_version(put_item(update)) == Some(update.version),
        item_key(put_item(update)) == Some(update.key),
{
    reveal_strlit("id");
    reveal_strlit("version");
    reveal_strlit("object_value");
    assert("id"@.len() == 2);
    assert("version"@.len() == 7);
    assert("object_value"@.len() == 12);
    law_version_text_round_trip(update.version);
}

/// A batch of gets that is answered with the items that updates stored reads
/// back the table, the key and the version of each of these updates.
pub proof fn law_batch_read_after_write(table: Seq<char>, updates: Seq<UpdateView>)
    ensures
        response_versions(
            seq![(table, updates.map_values(|update: UpdateView| put_item(update)))],
        ) == updates.map_values(
            |update: UpdateView| (table, update.key, Some(update.version)),
        ),
{
    let items = updates.map_values(|update: UpdateView| put_item(update));
    let responses = seq![(table, items)];
    assert forall|i: int| 0 <= i < updates.len() implies #[trigger] table_versions(
        table,
        items,
    )[i] == (table, updates[i].key, Some(updates[i].version)) by {
        law_read_after_write(updates[i]);
    }
    assert(responses.drop_last() =~= Seq::empty());
    assert(response_versions(responses.drop_last()) =~= Seq::empty());
    assert(response_versions(responses) =~= updates.map_values(
        |update: UpdateView| (table, update.key, Some(update.version)),
    ));
}

} // verus!
