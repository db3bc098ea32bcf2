//! A backend that keeps its values in memory.

use crate::bytes::{copy_bytes, pair_view, pair_views};
use crate::json::{copy_values, json_from_slice, json_parsed, json_view, json_views, JsonView};
use crate::keyed::{entries_map, KeyedMap};
use crate::storage::{
    copy_stale, empty_store, find_stale, make_write_record, stale_views, stored_view, update_views,
    version_view, version_views, write_record, BatchGetStep, BatchGetStepView, BatchUpdateStep,
    BatchUpdateStepView, Contents, GetStep, GetStepView, PutStep, PutStepView, StaleKeyInfo,
    StaleKeyView, Storage, StoreView, UpdateItem, UpdateView, Versions,
};
use serde_json::Value;
use vstd::prelude::*;

verus! {

/// The values under their keys.
pub type Table = KeyedMap<(String, Vec<u8>), (i64, Vec<u8>)>;

/// The views of the values of a table.
pub open spec fn table_view(table: Map<(Seq<char>, Seq<u8>), (i64, Vec<u8>)>) -> Contents {
    table.map_values(|stored: (i64, Vec<u8>)| (stored.0, stored.1@))
}

/// What the contents hold under a key.
pub open spec fn lookup(store: Contents, table: Seq<char>, key: Seq<u8>) -> Option<
    (i64, Seq<u8>),
> {
    if store.contains_key((table, key)) {
        Some(store[(table, key)])
    } else {
        None
    }
}

/// The version that the next put under a key has: zero for a new key, one more
/// than before for a known one.
pub open spec fn next_version(store: Contents, table: Seq<char>, key: Seq<u8>) -> int {
    match lookup(store, table, key) {
        Some((version, _)) => version + 1,
        None => 0,
    }
}

/// Whether a value can be put under a key: it is JSON, and its version can be
/// counted up.
pub open spec fn accepts(
    store: Contents,
    table: Seq<char>,
    key: Seq<u8>,
    value: Seq<u8>,
) -> bool {
    json_parsed(value) is Some && next_version(store, table, key) <= i64::MAX
}

/// The backend after a value was stored whose record is given.
pub open spec fn after_store(
    before: StoreView,
    table: Seq<char>,
    key: Seq<u8>,
    value: Seq<u8>,
    recorded: JsonView,
) -> StoreView {
    StoreView {
        store: before.store.insert(
            (table, key),
            (next_version(before.store, table, key) as i64, value),
        ),
        writes: before.writes.push(write_record(table, key, recorded)),
        stale: before.stale,
    }
}

/// The backend after a put: the value is recorded as the JSON that it holds.
pub open spec fn after_put(
    before: StoreView,
    table: Seq<char>,
    key: Seq<u8>,
    value: Seq<u8>,
) -> StoreView {
    after_store(before, table, key, value, json_parsed(value).unwrap())
}

/// The backend after several puts, one after the other. Of an update only the
/// table, the key and the value count: versions are counted here.
pub open spec fn after_updates(before: StoreView, items: Seq<UpdateView>) -> StoreView
    decreases items.len(),
{
    if items.len() == 0 {
        before
    } else {
        let last = items.last();
        after_put(after_updates(before, items.drop_last()), last.table, last.key, last.value)
    }
}

/// Whether several puts can be done one after the other.
pub open spec fn accepts_all(before: StoreView, items: Seq<UpdateView>) -> bool {
    forall|i: int|
        0 <= i < items.len() ==> accepts(
            after_updates(before, items.take(i)).store,
            (#[trigger] items[i]).table,
            items[i].key,
            items[i].value,
        )
}

/// The versions of several keys, in the order in which they are asked for.
pub open spec fn versions_of(store: Contents, pairs: Seq<(Seq<char>, Seq<u8>)>) -> Seq<
    (Seq<char>, Seq<u8>, Option<i64>),
> {
    pairs.map_values(
        |pair: (Seq<char>, Seq<u8>)|
            (
                pair.0,
                pair.1,
                match lookup(store, pair.0, pair.1) {
                    Some((version, _)) => Some(version),
                    None => None,
                },
            ),
    )
}

/// A backend that keeps its values in memory.
#[derive(Debug)]
pub struct DummyStorage {
    pub store: Table,
    pub writes: Vec<Value>,
    pub stale_keys: Vec<StaleKeyInfo>,
}

impl View for DummyStorage {
    type V = StoreView;

    open spec fn view(&self) -> StoreView {
        StoreView {
            store: table_view(self.store@),
            writes: json_views(self.writes@),
            stale: stale_views(self.stale_keys@),
        }
    }
}

/// A clone of an in-memory backend that shares its values, which stay with the
/// backend. The records and the stale keys are the clone's own.
#[derive(Debug)]
pub struct DummyClone {
    pub writes: Vec<Value>,
    pub stale_keys: Vec<StaleKeyInfo>,
}

impl DummyClone {
    /// What a clone holds, given the values of the backend it belongs to.
    pub open spec fn held(self, values: Contents) -> StoreView {
        StoreView {
            store: values,
            writes: json_views(self.writes@),
            stale: stale_views(self.stale_keys@),
        }
    }
}

impl DummyStorage {
    /// A backend that holds nothing.
    pub fn new() -> (storage: Self)
        ensures
            storage@ == empty_store(),
    {
        let storage: DummyStorage = DummyStorage {
            store: KeyedMap::new(),
            writes: Vec::new(),
            stale_keys: Vec::new(),
        };
        assert(storage@.store =~= Map::empty());
        assert(storage@.writes =~= Seq::empty());
        assert(storage@.stale =~= Seq::empty());
        storage
    }

    /// The version and the value under a key.
    fn find(&self, table: &String, key: &Vec<u8>) -> (stored: Option<(i64, Vec<u8>)>)
        ensures
            stored_view(stored) == lookup(self@.store, table@, key@),
    {
        let pair: (String, Vec<u8>) = (table.clone(), copy_bytes(key.as_slice()));
        match self.store.get(&pair) {
            Some(stored) => Some((stored.0, copy_bytes(stored.1.as_slice()))),
            None => None,
        }
    }

    /// Stores a value whose JSON was read, with the version that comes next.
    pub fn store_value(&mut self, table: String, key: Vec<u8>, value: Vec<u8>, parsed: Value)
        requires
            next_version(old(self)@.store, table@, key@) <= i64::MAX,
        ensures
            final(self)@ == after_store(old(self)@, table@, key@, value@, json_view(parsed)),
    {
        let version: i64 = match self.find(&table, &key) {
            Some((version, _)) => version + 1,
            None => 0,
        };
        let record: Value = make_write_record(table.as_str(), &key, parsed);
        let ghost writes = self.writes@;
        let ghost before = self.store@;
        self.writes.push(record);
        self.store.insert((table, key), (version, value));
        proof {
            assert(json_views(self.writes@) =~= json_views(writes).push(json_view(record)));
            assert(table_view(self.store@) =~= table_view(before).insert(
                (table@, key@),
                (version, value@),
            ));
        }
    }

    /// Applies updates through a clone that shares the values, if all of them
    /// can be applied: the values are stored, and the backend's own records
    /// stay as they are. Changes nothing if not.
    pub fn update_through_clone(&mut self, table_key_pairs: &Vec<UpdateItem>) -> (step: Option<
        BatchUpdateStep,
    >)
        ensures
            step is Some <==> accepts_all(old(self)@, update_views(table_key_pairs@)),
            step matches Some(s) ==> s is Done,
            step is Some ==> final(self)@ == (StoreView {
                writes: old(self)@.writes,
                ..after_updates(old(self)@, update_views(table_key_pairs@))
            }),
            step is None ==> *final(self) == *old(self),
    {
        let mut clone: DummyClone = self.share();
        self.exchange(&mut clone);
        let step: Option<BatchUpdateStep> = self.try_batch_update(table_key_pairs);
        self.exchange(&mut clone);
        step
    }

    /// A backend with the same values, without records and without stale keys.
    fn copy_store(&self) -> (copy: DummyStorage)
        ensures
            copy@ == (StoreView { store: self@.store, ..empty_store() }),
    {
        let entries: &Vec<((String, Vec<u8>), (i64, Vec<u8>))> = self.store.entries();
        let mut copy: DummyStorage = DummyStorage::new();
        let mut i: usize = 0;
        assert(table_view(entries_map(entries@.take(0))) =~= Map::empty());
        while i < entries.len()
            invariant
                i <= entries.len(),
                copy@ == (StoreView {
                    store: table_view(entries_map(entries@.take(i as int))),
                    ..empty_store()
                }),
            decreases entries.len() - i,
        {
            let key: (String, Vec<u8>) = (
                entries[i].0.0.clone(),
                copy_bytes(entries[i].0.1.as_slice()),
            );
            let stored: (i64, Vec<u8>) = (entries[i].1.0, copy_bytes(entries[i].1.1.as_slice()));
            let ghost before = copy.store@;
            copy.store.insert(key, stored);
            proof {
                let longer = entries@.take(i + 1);
                assert(longer.drop_last() =~= entries@.take(i as int));
                let shorter = entries_map(entries@.take(i as int));
                let last = entries@[i as int];
                assert(entries_map(longer) == shorter.insert(last.0@, last.1));
                assert(table_view(shorter.insert(last.0@, last.1)) =~= table_view(shorter).insert(
                    last.0@,
                    (last.1.0, last.1.1@),
                ));
                assert(table_view(before.insert(key@, stored)) =~= table_view(before).insert(
                    key@,
                    (stored.0, stored.1@),
                ));
            }
            i = i + 1;
        }
        assert(entries@.take(i as int) =~= entries@);
        copy
    }

    /// Applies updates in order up to the first that cannot be applied, and
    /// says how many there were.
    fn apply_updates(&mut self, table_key_pairs: &Vec<UpdateItem>) -> (applied: usize)
        ensures
            applied <= table_key_pairs@.len(),
            final(self)@ == after_updates(
                old(self)@,
                update_views(table_key_pairs@).take(applied as int),
            ),
            accepts_all(old(self)@, update_views(table_key_pairs@).take(applied as int)),
            applied < table_key_pairs@.len() ==> !accepts(
                final(self)@.store,
                table_key_pairs@[applied as int].table@,
                table_key_pairs@[applied as int].key@,
                table_key_pairs@[applied as int].value@,
            ),
    {
        let ghost items = update_views(table_key_pairs@);
        let ghost before = self@;
        let mut i: usize = 0;
        assert(items.take(0) =~= Seq::empty());
        while i < table_key_pairs.len()
            invariant
                i <= table_key_pairs.len(),
                items == update_views(table_key_pairs@),
                self@ == after_updates(before, items.take(i as int)),
                accepts_all(before, items.take(i as int)),
            ensures
                i <= table_key_pairs.len(),
                self@ == after_updates(before, items.take(i as int)),
                accepts_all(before, items.take(i as int)),
                i < table_key_pairs.len() ==> !accepts(
                    self@.store,
                    items[i as int].table,
                    items[i as int].key,
                    items[i as int].value,
                ),
            decreases table_key_pairs.len() - i,
        {
            let item: &UpdateItem = &table_key_pairs[i];
            let step: Option<PutStep> = self.try_put(
                item.table.clone(),
                copy_bytes(item.key.as_slice()),
                copy_bytes(item.value.as_slice()),
            );
            if step.is_none() {
                break;
            }
            proof {
                let shorter = items.take(i as int);
                let longer = items.take(i + 1);
                assert(longer.drop_last() =~= shorter);
                assert forall|j: int| 0 <= j < longer.len() implies accepts(
                    after_updates(before, longer.take(j)).store,
                    (#[trigger] longer[j]).table,
                    longer[j].key,
                    longer[j].value,
                ) by {
                    if j < i {
                        assert(shorter[j] == longer[j]);
                        assert(shorter.take(j) =~= longer.take(j));
                    } else {
                        assert(longer.take(j) =~= shorter);
                    }
                }
            }
            i = i + 1;
        }
        i
    }
}

impl Storage for DummyStorage {
    type Shared = DummyClone;

    open spec fn held_by(clone: &DummyClone, values: Contents) -> StoreView {
        clone.held(values)
    }

    open spec fn has_clone(&self, clone: &DummyClone) -> bool {
        true
    }

    open spec fn held(&self) -> StoreView {
        self@
    }

    open spec fn same_kind(&self, other: &Self) -> bool {
        true
    }

    open spec fn can_put(&self, table: Seq<char>, key: Seq<u8>, value: Seq<u8>) -> bool {
        accepts(self@.store, table, key, value)
    }

    open spec fn can_update(&self, items: Seq<UpdateView>) -> bool {
        accepts_all(self@, items)
    }

    open spec fn held_after_put(
        &self,
        table: Seq<char>,
        key: Seq<u8>,
        value: Seq<u8>,
    ) -> StoreView {
        after_put(self@, table, key, value)
    }

    open spec fn held_after_update(&self, items: Seq<UpdateView>) -> StoreView {
        after_updates(self@, items)
    }

    open spec fn put_result(
        &self,
        table: Seq<char>,
        key: Seq<u8>,
        value: Seq<u8>,
    ) -> PutStepView {
        PutStepView::Done
    }

    open spec fn get_result(&self, table: Seq<char>, key: Seq<u8>) -> GetStepView {
        GetStepView::Done(lookup(self@.store, table, key))
    }

    open spec fn batch_get_result(&self, pairs: Seq<(Seq<char>, Seq<u8>)>) -> BatchGetStepView {
        BatchGetStepView::Done(versions_of(self@.store, pairs))
    }

    open spec fn batch_update_result(&self, items: Seq<UpdateView>) -> BatchUpdateStepView {
        BatchUpdateStepView::Done
    }

    fn share(&self) -> (clone: DummyClone) {
        DummyClone { writes: copy_values(&self.writes), stale_keys: copy_stale(&self.stale_keys) }
    }

    fn exchange(&mut self, clone: &mut DummyClone)
        ensures
            final(self).store == old(self).store,
            final(self).writes == old(clone).writes,
            final(self).stale_keys == old(clone).stale_keys,
            final(clone).writes == old(self).writes,
            final(clone).stale_keys == old(self).stale_keys,
    {
        std::mem::swap(&mut self.writes, &mut clone.writes);
        std::mem::swap(&mut self.stale_keys, &mut clone.stale_keys);
    }

    fn put(&mut self, table: String, key: Vec<u8>, value: Vec<u8>) -> (step: PutStep) {
        if let Ok(parsed) = json_from_slice(value.as_slice()) {
            self.store_value(table, key, value, parsed);
        }
        PutStep::Done
    }

    fn try_put(&mut self, table: String, key: Vec<u8>, value: Vec<u8>) -> (step: Option<PutStep>) {
        if let Some((version, _)) = self.find(&table, &key) {
            if version == i64::MAX {
                return None;
            }
        }
        match json_from_slice(value.as_slice()) {
            Ok(parsed) => {
                self.store_value(table, key, value, parsed);
                Some(PutStep::Done)
            },
            Err(_) => None,
        }
    }

    fn get(&self, table: String, key: &Vec<u8>) -> (step: GetStep) {
        GetStep::Done(self.find(&table, key))
    }

    fn batch_get(&self, table_key_pairs: &Vec<(String, Vec<u8>)>) -> (step: BatchGetStep) {
        let ghost pairs = pair_views(table_key_pairs@);
        let mut versions: Versions = Vec::new();
        let mut i: usize = 0;
        while i < table_key_pairs.len()
            invariant
                i <= table_key_pairs.len(),
                versions.len() == i,
                pairs == pair_views(table_key_pairs@),
                forall|j: int|
                    0 <= j < i ==> version_view(#[trigger] versions@[j]) == versions_of(
                        self@.store,
                        pairs,
                    )[j],
            decreases table_key_pairs.len() - i,
        {
            let table: &String = &table_key_pairs[i].0;
            let key: &Vec<u8> = &table_key_pairs[i].1;
            let version: Option<i64> = match self.find(table, key) {
                Some((version, _)) => Some(version),
                None => None,
            };
            assert(pairs[i as int] == pair_view(table_key_pairs@[i as int]));
            versions.push((table.clone(), copy_bytes(key.as_slice()), version));
            i = i + 1;
        }
        assert(version_views(versions@) =~= versions_of(self@.store, pairs));
        BatchGetStep::Done(versions)
    }

    fn batch_update(&mut self, table_key_pairs: &Vec<UpdateItem>) -> (step: BatchUpdateStep) {
        let ghost items = update_views(table_key_pairs@);
        let ghost before = self@;
        let mut i: usize = 0;
        assert(items.take(0) =~= Seq::empty());
        while i < table_key_pairs.len()
            invariant
                i <= table_key_pairs.len(),
                items == update_views(table_key_pairs@),
                accepts_all(before, items),
                self@ == after_updates(before, items.take(i as int)),
                self@.stale == before.stale,
            decreases table_key_pairs.len() - i,
        {
            let item: &UpdateItem = &table_key_pairs[i];
            assert(items[i as int] == item@);
            self.put(
                item.table.clone(),
                copy_bytes(item.key.as_slice()),
                copy_bytes(item.value.as_slice()),
            );
            assert(items.take(i + 1).drop_last() =~= items.take(i as int));
            i = i + 1;
        }
        assert(items.take(i as int) =~= items);
        BatchUpdateStep::Done
    }

    fn try_batch_update(&mut self, table_key_pairs: &Vec<UpdateItem>) -> (step: Option<
        BatchUpdateStep,
    >) {
        let ghost items = update_views(table_key_pairs@);
        let mut trial: DummyStorage = self.copy_store();
        let ghost start = trial@;
        let applied: usize = trial.apply_updates(table_key_pairs);
        proof {
            lemma_values_decide(start, self@, items);
            lemma_values_decide(start, self@, items.take(applied as int));
            assert(items.take(table_key_pairs.len() as int) =~= items);
        }
        if applied < table_key_pairs.len() {
            assert(items[applied as int] == table_key_pairs@[applied as int]@);
            return None;
        }
        Some(self.batch_update(table_key_pairs))
    }

    fn reset_writes(&mut self) {
        self.writes.clear();
        assert(json_views(self.writes@) =~= Seq::<JsonView>::empty());
    }

    fn get_all_writes(&self) -> (writes: Vec<Value>) {
        copy_values(&self.writes)
    }

    fn is_key_stale(&self, table: &str, key: &Vec<u8>) -> (stale: bool) {
        find_stale(&self.stale_keys, table, key)
    }

    fn update_stale_keys(&mut self, stale_keys: Vec<StaleKeyInfo>) {
        self.stale_keys = stale_keys;
    }

    fn get_stale_keys(&self) -> (keys: Vec<StaleKeyInfo>) {
        copy_stale(&self.stale_keys)
    }

    fn clear_stale_keys(&mut self) {
        self.stale_keys.clear();
        assert(stale_views(self.stale_keys@) =~= Seq::<StaleKeyView>::empty());
    }
}

/// What updates do to the values, and whether they can be applied, depends on
/// the values alone.
proof fn lemma_values_decide(a: StoreView, b: StoreView, items: Seq<UpdateView>)
    requires
        a.store == b.store,
    ensures
        after_updates(a, items).store == after_updates(b, items).store,
        accepts_all(a, items) == accepts_all(b, items),
    decreases items.len(),
{
    if items.len() > 0 {
        lemma_values_decide(a, b, items.drop_last());
    }
    assert forall|i: int| 0 <= i < items.len() implies after_updates(
        a,
        #[trigger] items.take(i),
    ).store == after_updates(b, items.take(i)).store by {
        lemma_values_decide(a, b, items.take(i));
    }
}

/// A get after a put under the same key gives back the value that was put; a
/// get under any other key gives what it gave before.
pub proof fn law_get_after_put(
    before: StoreView,
    table: Seq<char>,
    key: Seq<u8>,
    value: Seq<u8>,
    other_table: Seq<char>,
    other_key: Seq<u8>,
)
    requires
        accepts(before.store, table, key, value),
    ensures
        lookup(after_put(before, table, key, value).store, table, key) == Some(
            (next_version(before.store, table, key) as i64, value),
        ),
        (other_table, other_key) != (table, key) ==> lookup(
            after_put(before, table, key, value).store,
            other_table,
            other_key,
        ) == lookup(before.store, other_table, other_key),
{
}

/// Clones that share values see each other's puts and keep records apart: after
/// a put by the backend a clone finds under every key what the backend finds,
/// and after a put by a clone the backend does. The one that did not put has
/// the records that it had, and the one that did has one more.
pub proof fn law_clones_share_values(
    backend: StoreView,
    clone: DummyClone,
    table: Seq<char>,
    key: Seq<u8>,
    value: Seq<u8>,
    other_table: Seq<char>,
    other_key: Seq<u8>,
)
    requires
        accepts(backend.store, table, key, value),
    ensures
        ({
            let record = write_record(table, key, json_parsed(value).unwrap());
            let put = after_put(backend, table, key, value);
            let seen = clone.held(put.store);
            let cloned = clone.held(backend.store);
            let put_by_clone = after_put(cloned, table, key, value);
            let seen_by_backend = StoreView { store: put_by_clone.store, ..backend };
            &&& lookup(seen.store, other_table, other_key) == lookup(
                put.store,
                other_table,
                other_key,
            )
            &&& lookup(seen.store, table, key) == Some(
                (next_version(backend.store, table, key) as i64, value),
            )
            &&& seen.writes == cloned.writes
            &&& put.writes == backend.writes.push(record)
            &&& lookup(seen_by_backend.store, other_table, other_key) == lookup(
                put.store,
                other_table,
                other_key,
            )
            &&& seen_by_backend.writes == backend.writes
            &&& put_by_clone.writes == cloned.writes.push(record)
        }),
{
}

/// How many of the updates go to a key.
pub open spec fn updates_to(items: Seq<UpdateView>, table: Seq<char>, key: Seq<u8>) -> nat
    decreases items.len(),
{
    if items.len() == 0 {
        0
    } else {
        updates_to(items.drop_last(), table, key) + if items.last().table == table
            && items.last().key == key {
            1nat
        } else {
            0nat
        }
    }
}

/// A key counts its puts: starting from an empty backend, after any updates
/// the version of a key is one less than the number of updates to it, and a
/// key without updates is unknown.
pub proof fn law_version_counts_puts(items: Seq<UpdateView>, table: Seq<char>, key: Seq<u8>)
    requires
        accepts_all(empty_store(), items),
    ensures
        match lookup(after_updates(empty_store(), items).store, table, key) {
            Some((version, _)) => version + 1 == updates_to(items, table, key),
            None => updates_to(items, table, key) == 0,
        },
    decreases items.len(),
{
    let empty = empty_store();
    if items.len() > 0 {
        let rest = items.drop_last();
        assert(accepts_all(empty, rest)) by {
            assert forall|i: int| 0 <= i < rest.len() implies accepts(
                after_updates(empty, rest.take(i)).store,
                (#[trigger] rest[i]).table,
                rest[i].key,
                rest[i].value,
            ) by {
                assert(items[i] == rest[i]);
                assert(items.take(i) =~= rest.take(i));
            }
        }
        law_version_counts_puts(rest, table, key);
        let last = items[items.len() - 1];
        assert(items.take(items.len() - 1) =~= rest);
        assert(accepts(after_updates(empty, rest).store, last.table, last.key, last.value));
    }
}

/// Updates leave one record each, in order, behind the records that were there.
pub proof fn law_updates_are_recorded(before: StoreView, items: Seq<UpdateView>)
    ensures
        after_updates(before, items).writes == before.writes + items.map_values(
            |item: UpdateView|
                write_record(item.table, item.key, json_parsed(item.value).unwrap()),
        ),
        after_updates(before, items).stale == before.stale,
    decreases items.len(),
{
    let records = items.map_values(
        |item: UpdateView| write_record(item.table, item.key, json_parsed(item.value).unwrap()),
    );
    if items.len() > 0 {
        let rest = items.drop_last();
        law_updates_are_recorded(before, rest);
        assert(after_updates(before, items).writes =~= before.writes + records);
    } else {
        assert(before.writes + records =~= before.writes);
    }
}

} // verus!
