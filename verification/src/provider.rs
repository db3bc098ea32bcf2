//! The choice of a backend, and the view of it that a running function gets.

use crate::bytes::{copy_bytes, pair_view, pair_views};
use crate::dummy::{DummyClone, DummyStorage};
use crate::dynamo::DynamoStore;
use crate::storage::{
    is_stale, update_views, BatchGetStep, BatchGetStepView, BatchUpdateStep, BatchUpdateStepView,
    Contents, GetStep, GetStepView, PutStep, PutStepView, StaleKeyInfo, StaleKeyView, Storage,
    StoreView, UpdateItem, UpdateView,
};
use crate::wasm::MyState;
use serde_json::Value;
use vstd::prelude::*;

verus! {

/// The backend that is in use.
#[derive(Debug)]
pub enum StorageProvider {
    Dummy(DummyStorage),
    Dynamo(DynamoStore),
}

/// A clone of the backend that is in use.
#[derive(Debug)]
pub enum StorageClone {
    Dummy(DummyClone),
    Dynamo(DynamoStore),
}

impl StorageProvider {
    /// Applies updates through a clone of the backend, if all of them can be
    /// applied: what they store is there for the backend, and its own records
    /// stay as they are. Changes nothing if not.
    pub fn update_through_clone(&mut self, table_key_pairs: &Vec<UpdateItem>) -> (step: Option<
        BatchUpdateStep,
    >)
        ensures
            step is Some <==> old(self).can_update(update_views(table_key_pairs@)),
            step matches Some(s) ==> s@ == old(self).batch_update_result(
                update_views(table_key_pairs@),
            ),
            step is Some ==> final(self).held() == (StoreView {
                writes: old(self).held().writes,
                ..old(self).held_after_update(update_views(table_key_pairs@))
            }),
            step is None ==> *final(self) == *old(self),
            final(self).same_kind(old(self)),
    {
        match self {
            StorageProvider::Dummy(store) => store.update_through_clone(table_key_pairs),
            StorageProvider::Dynamo(store) => store.clone().try_batch_update(table_key_pairs),
        }
    }
}

impl Storage for StorageProvider {
    type Shared = StorageClone;

    open spec fn held_by(clone: &StorageClone, values: Contents) -> StoreView {
        match clone {
            StorageClone::Dummy(clone) => DummyStorage::held_by(clone, values),
            StorageClone::Dynamo(clone) => DynamoStore::held_by(clone, values),
        }
    }

    open spec fn has_clone(&self, clone: &StorageClone) -> bool {
        self is Dummy <==> clone is Dummy
    }

    open spec fn held(&self) -> StoreView {
        match self {
            StorageProvider::Dummy(store) => store.held(),
            StorageProvider::Dynamo(store) => store.held(),
        }
    }

    open spec fn same_kind(&self, other: &Self) -> bool {
        self is Dummy <==> other is Dummy
    }

    open spec fn can_put(&self, table: Seq<char>, key: Seq<u8>, value: Seq<u8>) -> bool {
        match self {
            StorageProvider::Dummy(store) => store.can_put(table, key, value),
            StorageProvider::Dynamo(store) => store.can_put(table, key, value),
        }
    }

    open spec fn can_update(&self, items: Seq<UpdateView>) -> bool {
        match self {
            StorageProvider::Dummy(store) => store.can_update(items),
            StorageProvider::Dynamo(store) => store.can_update(items),
        }
    }

    open spec fn held_after_put(
        &self,
        table: Seq<char>,
        key: Seq<u8>,
        value: Seq<u8>,
    ) -> StoreView {
        match self {
            StorageProvider::Dummy(store) => store.held_after_put(table, key, value),
            StorageProvider::Dynamo(store) => store.held_after_put(table, key, value),
        }
    }

    open spec fn held_after_update(&self, items: Seq<UpdateView>) -> StoreView {
        match self {
            StorageProvider::Dummy(store) => store.held_after_update(items),
            StorageProvider::Dynamo(store) => store.held_after_update(items),
        }
    }

    open spec fn put_result(
        &self,
        table: Seq<char>,
        key: Seq<u8>,
        value: Seq<u8>,
    ) -> PutStepView {
        match self {
            StorageProvider::Dummy(store) => store.put_result(table, key, value),
            StorageProvider::Dynamo(store) => store.put_result(table, key, value),
        }
    }

    open spec fn get_result(&self, table: Seq<char>, key: Seq<u8>) -> GetStepView {
        match self {
            StorageProvider::Dummy(store) => store.get_result(table, key),
            StorageProvider::Dynamo(store) => store.get_result(table, key),
        }
    }

    open spec fn batch_get_result(&self, pairs: Seq<(Seq<char>, Seq<u8>)>) -> BatchGetStepView {
        match self {
            StorageProvider::Dummy(store) => store.batch_get_result(pairs),
            StorageProvider::Dynamo(store) => store.batch_get_result(pairs),
        }
    }

    open spec fn batch_update_result(&self, items: Seq<UpdateView>) -> BatchUpdateStepView {
        match self {
            StorageProvider::Dummy(store) => store.batch_update_result(items),
            StorageProvider::Dynamo(store) => store.batch_update_result(items),
        }
    }

    fn share(&self) -> (clone: StorageClone) {
        match self {
            StorageProvider::Dummy(store) => StorageClone::Dummy(store.share()),
            StorageProvider::Dynamo(store) => StorageClone::Dynamo(store.share()),
        }
    }

    fn exchange(&mut self, clone: &mut StorageClone) {
        match self {
            StorageProvider::Dummy(store) => match clone {
                StorageClone::Dummy(other) => store.exchange(other),
                StorageClone::Dynamo(_) => {},
            },
            StorageProvider::Dynamo(store) => match clone {
                StorageClone::Dummy(_) => {},
                StorageClone::Dynamo(other) => store.exchange(other),
            },
        }
    }

    fn put(&mut self, table: String, key: Vec<u8>, value: Vec<u8>) -> (step: PutStep) {
        match self {
            StorageProvider::Dummy(store) => store.put(table, key, value),
            StorageProvider::Dynamo(store) => store.put(table, key, value),
        }
    }

    fn try_put(&mut self, table: String, key: Vec<u8>, value: Vec<u8>) -> (step: Option<PutStep>) {
        match self {
            StorageProvider::Dummy(store) => store.try_put(table, key, value),
            StorageProvider::Dynamo(store) => store.try_put(table, key, value),
        }
    }

    fn get(&self, table: String, key: &Vec<u8>) -> (step: GetStep) {
        match self {
            StorageProvider::Dummy(store) => store.get(table, key),
            StorageProvider::Dynamo(store) => store.get(table, key),
        }
    }

    fn batch_get(&self, table_key_pairs: &Vec<(String, Vec<u8>)>) -> (step: BatchGetStep) {
        match self {
            StorageProvider::Dummy(store) => store.batch_get(table_key_pairs),
            StorageProvider::Dynamo(store) => store.batch_get(table_key_pairs),
        }
    }

    fn batch_update(&mut self, table_key_pairs: &Vec<UpdateItem>) -> (step: BatchUpdateStep) {
        match self {
            StorageProvider::Dummy(store) => store.batch_update(table_key_pairs),
            StorageProvider::Dynamo(store) => store.batch_update(table_key_pairs),
        }
    }

    fn try_batch_update(&mut self, table_key_pairs: &Vec<UpdateItem>) -> (step: Option<
        BatchUpdateStep,
    >) {
        match self {
            StorageProvider::Dummy(store) => store.try_batch_update(table_key_pairs),
            StorageProvider::Dynamo(store) => store.try_batch_update(table_key_pairs),
        }
    }

    fn reset_writes(&mut self) {
        match self {
            StorageProvider::Dummy(store) => store.reset_writes(),
            StorageProvider::Dynamo(store) => store.reset_writes(),
        }
    }

    fn get_all_writes(&self) -> (writes: Vec<Value>) {
        match self {
            StorageProvider::Dummy(store) => store.get_all_writes(),
            StorageProvider::Dynamo(store) => store.get_all_writes(),
        }
    }

    fn is_key_stale(&self, table: &str, key: &Vec<u8>) -> (stale: bool) {
        match self {
            StorageProvider::Dummy(store) => store.is_key_stale(table, key),
            StorageProvider::Dynamo(store) => store.is_key_stale(table, key),
        }
    }

    fn update_stale_keys(&mut self, stale_keys: Vec<StaleKeyInfo>) {
        match self {
            StorageProvider::Dummy(store) => store.update_stale_keys(stale_keys),
            StorageProvider::Dynamo(store) => store.update_stale_keys(stale_keys),
        }
    }

    fn get_stale_keys(&self) -> (keys: Vec<StaleKeyInfo>) {
        match self {
            StorageProvider::Dummy(store) => store.get_stale_keys(),
            StorageProvider::Dynamo(store) => store.get_stale_keys(),
        }
    }

    fn clear_stale_keys(&mut self) {
        match self {
            StorageProvider::Dummy(store) => store.clear_stale_keys(),
            StorageProvider::Dynamo(store) => store.clear_stale_keys(),
        }
    }
}

/// Whether one of the keys that were read is stale.
pub open spec fn any_stale(
    stale: Seq<StaleKeyView>,
    reads: Seq<(Seq<char>, Seq<u8>)>,
) -> bool {
    exists|i: int|
        0 <= i < reads.len() && is_stale(stale, (#[trigger] reads[i]).0, reads[i].1)
}

/// One more read adds a stale one exactly where its key is stale.
proof fn lemma_any_stale_push(
    stale: Seq<StaleKeyView>,
    reads: Seq<(Seq<char>, Seq<u8>)>,
    table: Seq<char>,
    key: Seq<u8>,
)
    ensures
        any_stale(stale, reads.push((table, key))) == (any_stale(stale, reads) || is_stale(
            stale,
            table,
            key,
        )),
{
    let longer = reads.push((table, key));
    if any_stale(stale, reads) {
        let i = choose|i: int|
            0 <= i < reads.len() && is_stale(stale, (#[trigger] reads[i]).0, reads[i].1);
        assert(longer[i] == reads[i]);
    }
    if is_stale(stale, table, key) {
        assert(longer[reads.len() as int] == (table, key));
    }
    if any_stale(stale, longer) {
        let i = choose|i: int|
            0 <= i < longer.len() && is_stale(stale, (#[trigger] longer[i]).0, longer[i].1);
        if i < reads.len() {
            assert(longer[i] == reads[i]);
        }
    }
}

/// A backend as a running function sees it: every read is noted, and a stale
/// key reads as absent.
#[derive(Debug)]
pub struct StorageWrapper<D: Storage> {
    pub inner: MyState<D>,
    pub read_keys: Vec<(String, Vec<u8>)>,
    pub encountered_stale: bool,
}

impl<D: Storage> StorageWrapper<D> {
    /// The flag says whether a stale key was among the reads so far.
    pub open spec fn flag_covers_reads(&self) -> bool {
        self.encountered_stale == any_stale(
            self.inner.external_store.held().stale,
            pair_views(self.read_keys@),
        )
    }

    /// A backend of which nothing has been read yet.
    pub fn new(inner: MyState<D>) -> (wrapper: Self)
        ensures
            wrapper.inner == inner,
            wrapper.read_keys@ == Seq::<(String, Vec<u8>)>::empty(),
            !wrapper.encountered_stale,
            wrapper.flag_covers_reads(),
    {
        StorageWrapper { inner, read_keys: Vec::new(), encountered_stale: false }
    }

    /// Notes a read and asks the backend. A stale key counts as absent and is
    /// not asked for.
    pub fn get(&mut self, table: String, key: &Vec<u8>) -> (step: GetStep)
        ensures
            final(self).inner == old(self).inner,
            pair_views(final(self).read_keys@) == pair_views(old(self).read_keys@).push(
                (table@, key@),
            ),
            final(self).encountered_stale == (old(self).encountered_stale || is_stale(
                old(self).inner.external_store.held().stale,
                table@,
                key@,
            )),
            step@ == if is_stale(old(self).inner.external_store.held().stale, table@, key@) {
                GetStepView::Done(None)
            } else {
                old(self).inner.external_store.get_result(table@, key@)
            },
            old(self).flag_covers_reads() ==> final(self).flag_covers_reads(),
    {
        let ghost before = self.read_keys@;
        let pair: (String, Vec<u8>) = (table.clone(), copy_bytes(key.as_slice()));
        self.read_keys.push(pair);
        proof {
            assert(pair_views(self.read_keys@) =~= pair_views(before).push(pair_view(pair)));
            lemma_any_stale_push(
                self.inner.external_store.held().stale,
                pair_views(before),
                table@,
                key@,
            );
        }
        if self.inner.external_store.is_key_stale(table.as_str(), key) {
            self.encountered_stale = true;
            return GetStep::Done(None);
        }
        self.inner.external_store.get(table, key)
    }

    /// Hands a write to the backend.
    pub fn put(&mut self, table: String, key: Vec<u8>, value: Vec<u8>) -> (step: PutStep)
        requires
            old(self).inner.external_store.can_put(table@, key@, value@),
        ensures
            step@ == old(self).inner.external_store.put_result(table@, key@, value@),
            final(self).inner.external_store.held()
                == old(self).inner.external_store.held_after_put(table@, key@, value@),
            final(self).read_keys == old(self).read_keys,
            final(self).encountered_stale == old(self).encountered_stale,
            final(self).inner.external_store.same_kind(&old(self).inner.external_store),
            old(self).flag_covers_reads() ==> final(self).flag_covers_reads(),
    {
        self.inner.external_store.put(table, key, value)
    }

    /// Hands a write to the backend if it can be put, and changes nothing if
    /// not.
    pub fn try_put(&mut self, table: String, key: Vec<u8>, value: Vec<u8>) -> (step: Option<
        PutStep,
    >)
        ensures
            step is Some <==> old(self).inner.external_store.can_put(table@, key@, value@),
            step matches Some(s) ==> s@ == old(self).inner.external_store.put_result(
                table@,
                key@,
                value@,
            ),
            step is Some ==> final(self).inner.external_store.held()
                == old(self).inner.external_store.held_after_put(table@, key@, value@),
            step is None ==> *final(self) == *old(self),
            final(self).read_keys == old(self).read_keys,
            final(self).encountered_stale == old(self).encountered_stale,
            final(self).inner.external_store.same_kind(&old(self).inner.external_store),
            old(self).flag_covers_reads() ==> final(self).flag_covers_reads(),
    {
        self.inner.external_store.try_put(table, key, value)
    }
}

} // verus!
