//! Keys, updates and staleness: what every storage backend has in common.

use crate::bytes::{bytes_eq, copy_bytes, pair_views, text_eq};
use crate::json::{
    add_field, bytes_json, json_from_bytes, json_from_fields, json_from_text, json_view, json_views,
    no_fields, JsonView,
};
use crate::keyed::LabelMap;
use serde_json::Value;
use vstd::prelude::*;

verus! {

/// The keys that a function is going to read and to write, each with its table.
#[derive(Debug, PartialEq)]
pub struct KeySet {
    pub read_set: Vec<(String, Vec<u8>)>,
    pub write_set: Vec<(String, Vec<u8>)>,
}

/// What a key set holds.
pub struct KeySetView {
    pub read_set: Seq<(Seq<char>, Seq<u8>)>,
    pub write_set: Seq<(Seq<char>, Seq<u8>)>,
}

impl View for KeySet {
    type V = KeySetView;

    open spec fn view(&self) -> KeySetView {
        KeySetView {
            read_set: pair_views(self.read_set@),
            write_set: pair_views(self.write_set@),
        }
    }
}

/// A key whose local value is out of date.
#[derive(Debug, PartialEq)]
pub struct StaleKeyInfo {
    pub table: String,
    pub key: Vec<u8>,
    pub is_value_replicated: bool,
}

/// What a stale key holds.
pub struct StaleKeyView {
    pub table: Seq<char>,
    pub key: Seq<u8>,
    pub is_value_replicated: bool,
}

impl View for StaleKeyInfo {
    type V = StaleKeyView;

    open spec fn view(&self) -> StaleKeyView {
        StaleKeyView {
            table: self.table@,
            key: self.key@,
            is_value_replicated: self.is_value_replicated,
        }
    }
}

/// A value to be stored under a key, with its version.
#[derive(Debug, PartialEq)]
pub struct UpdateItem {
    pub table: String,
    pub value: Vec<u8>,
    pub key: Vec<u8>,
    pub version: i64,
}

/// What an update holds.
pub struct UpdateView {
    pub table: Seq<char>,
    pub value: Seq<u8>,
    pub key: Seq<u8>,
    pub version: i64,
}

impl View for UpdateItem {
    type V = UpdateView;

    open spec fn view(&self) -> UpdateView {
        UpdateView {
            table: self.table@,
            value: self.value@,
            key: self.key@,
            version: self.version,
        }
    }
}

/// The views of a list of stale keys.
pub open spec fn stale_views(keys: Seq<StaleKeyInfo>) -> Seq<StaleKeyView> {
    keys.map_values(|key: StaleKeyInfo| key@)
}

/// The views of a list of updates.
pub open spec fn update_views(items: Seq<UpdateItem>) -> Seq<UpdateView> {
    items.map_values(|item: UpdateItem| item@)
}

/// Whether a key of a table is among the stale ones.
pub open spec fn is_stale(stale: Seq<StaleKeyView>, table: Seq<char>, key: Seq<u8>) -> bool {
    exists|i: int|
        0 <= i < stale.len() && (#[trigger] stale[i]).table == table && stale[i].key == key
}

/// The versions that a batch of keys has: table, key and version, no version
/// where the key is unknown.
pub type Versions = Vec<(String, Vec<u8>, Option<i64>)>;

/// The view of one entry of [`Versions`].
pub open spec fn version_view(entry: (String, Vec<u8>, Option<i64>)) -> (
    Seq<char>,
    Seq<u8>,
    Option<i64>,
) {
    (entry.0@, entry.1@, entry.2)
}

/// The views of [`Versions`].
pub open spec fn version_views(entries: Seq<(String, Vec<u8>, Option<i64>)>) -> Seq<
    (Seq<char>, Seq<u8>, Option<i64>),
> {
    entries.map_values(|entry: (String, Vec<u8>, Option<i64>)| version_view(entry))
}

/// An attribute of a stored item.
#[derive(Debug, PartialEq)]
pub enum Attribute {
    /// A number, as text.
    N(String),
    /// A byte string.
    B(Vec<u8>),
    /// An attribute of any other type.
    Other,
}

/// What an attribute holds.
pub enum AttributeView {
    N(Seq<char>),
    B(Seq<u8>),
    Other,
}

impl View for Attribute {
    type V = AttributeView;

    open spec fn view(&self) -> AttributeView {
        match self {
            Attribute::N(text) => AttributeView::N(text@),
            Attribute::B(bytes) => AttributeView::B(bytes@),
            Attribute::Other => AttributeView::Other,
        }
    }
}

/// A stored item: its attributes under their names.
pub type Item = LabelMap<Attribute>;

/// What an item holds.
pub type ItemView = Map<Seq<char>, AttributeView>;

/// What the attributes of an item hold.
pub open spec fn item_view(item: Map<Seq<char>, Attribute>) -> ItemView {
    item.map_values(|attribute: Attribute| attribute@)
}

/// Adding an attribute to an item adds what it holds.
pub proof fn lemma_item_insert(item: Map<Seq<char>, Attribute>, name: Seq<char>, value: Attribute)
    ensures
        item_view(item.insert(name, value)) == item_view(item).insert(name, value@),
{
    assert(item_view(item.insert(name, value)) =~= item_view(item).insert(name, value@));
}

/// A request to update one item.
#[derive(Debug)]
pub struct UpdateRequest {
    pub table_name: String,
    pub key: Item,
    pub expression_attribute_values: Item,
    pub update_expression: String,
}

/// A request to read one item.
#[derive(Debug)]
pub struct GetRequest {
    pub table_name: String,
    pub key: Item,
    pub consistent_read: bool,
}

/// The entry of a batch request for one table: which attributes of which items
/// are to be read.
#[derive(Debug)]
pub struct KeysEntry {
    pub table_name: String,
    pub keys: Vec<Item>,
    pub projection_expression: String,
    pub consistent_read: bool,
}

/// A request to write several items of one table.
#[derive(Debug)]
pub struct WriteBatch {
    pub table_name: String,
    pub items: Vec<Item>,
}

/// What is left to do for a put.
#[derive(Debug)]
pub enum PutStep {
    Done,
    Send(UpdateRequest),
}

/// What is left to do for a get.
#[derive(Debug)]
pub enum GetStep {
    Done(Option<(i64, Vec<u8>)>),
    Send(GetRequest),
}

/// What is left to do for a batch of gets.
#[derive(Debug)]
pub enum BatchGetStep {
    Done(Versions),
    /// One request, with an entry for each table.
    Send(Vec<KeysEntry>),
}

/// What is left to do for a batch of updates: the batches in order.
#[derive(Debug)]
pub enum BatchUpdateStep {
    Done,
    Send(Vec<WriteBatch>),
}

/// What a request to update one item holds.
pub struct UpdateRequestView {
    pub table_name: Seq<char>,
    pub key: ItemView,
    pub expression_attribute_values: ItemView,
    pub update_expression: Seq<char>,
}

/// What a request to read one item holds.
pub struct GetRequestView {
    pub table_name: Seq<char>,
    pub key: ItemView,
    pub consistent_read: bool,
}

/// What the entry of a batch request for one table holds.
pub struct KeysEntryView {
    pub table_name: Seq<char>,
    pub keys: Seq<ItemView>,
    pub projection_expression: Seq<char>,
    pub consistent_read: bool,
}

/// What a request to write several items holds.
pub struct WriteBatchView {
    pub table_name: Seq<char>,
    pub items: Seq<ItemView>,
}

/// What a [`PutStep`] holds.
pub enum PutStepView {
    Done,
    Send(UpdateRequestView),
}

/// What a [`GetStep`] holds.
pub enum GetStepView {
    Done(Option<(i64, Seq<u8>)>),
    Send(GetRequestView),
}

/// What a [`BatchGetStep`] holds.
pub enum BatchGetStepView {
    Done(Seq<(Seq<char>, Seq<u8>, Option<i64>)>),
    Send(Seq<KeysEntryView>),
}

/// What a [`BatchUpdateStep`] holds.
pub enum BatchUpdateStepView {
    Done,
    Send(Seq<WriteBatchView>),
}

/// What the items of a list hold.
pub open spec fn item_views(items: Seq<Item>) -> Seq<ItemView> {
    items.map_values(|item: Item| item_view(item@))
}

impl View for UpdateRequest {
    type V = UpdateRequestView;

    open spec fn view(&self) -> UpdateRequestView {
        UpdateRequestView {
            table_name: self.table_name@,
            key: item_view(self.key@),
            expression_attribute_values: item_view(self.expression_attribute_values@),
            update_expression: self.update_expression@,
        }
    }
}

impl View for GetRequest {
    type V = GetRequestView;

    open spec fn view(&self) -> GetRequestView {
        GetRequestView {
            table_name: self.table_name@,
            key: item_view(self.key@),
            consistent_read: self.consistent_read,
        }
    }
}

impl View for KeysEntry {
    type V = KeysEntryView;

    open spec fn view(&self) -> KeysEntryView {
        KeysEntryView {
            table_name: self.table_name@,
            keys: item_views(self.keys@),
            projection_expression: self.projection_expression@,
            consistent_read: self.consistent_read,
        }
    }
}

impl View for WriteBatch {
    type V = WriteBatchView;

    open spec fn view(&self) -> WriteBatchView {
        WriteBatchView { table_name: self.table_name@, items: item_views(self.items@) }
    }
}

impl View for PutStep {
    type V = PutStepView;

    open spec fn view(&self) -> PutStepView {
        match self {
            PutStep::Done => PutStepView::Done,
            PutStep::Send(request) => PutStepView::Send(request@),
        }
    }
}

/// The view of a version with a value.
pub open spec fn stored_view(stored: Option<(i64, Vec<u8>)>) -> Option<(i64, Seq<u8>)> {
    match stored {
        Some((version, value)) => Some((version, value@)),
        None => None,
    }
}

impl View for GetStep {
    type V = GetStepView;

    open spec fn view(&self) -> GetStepView {
        match self {
            GetStep::Done(stored) => GetStepView::Done(stored_view(*stored)),
            GetStep::Send(request) => GetStepView::Send(request@),
        }
    }
}

impl View for BatchGetStep {
    type V = BatchGetStepView;

    open spec fn view(&self) -> BatchGetStepView {
        match self {
            BatchGetStep::Done(versions) => BatchGetStepView::Done(version_views(versions@)),
            BatchGetStep::Send(entries) => BatchGetStepView::Send(
                entries@.map_values(|entry: KeysEntry| entry@),
            ),
        }
    }
}

impl View for BatchUpdateStep {
    type V = BatchUpdateStepView;

    open spec fn view(&self) -> BatchUpdateStepView {
        match self {
            BatchUpdateStep::Done => BatchUpdateStepView::Done,
            BatchUpdateStep::Send(batches) => BatchUpdateStepView::Send(
                batches@.map_values(|batch: WriteBatch| batch@),
            ),
        }
    }
}

/// The record of a write: the key as an array of bytes, the table, and the
/// value in the form that the backend records it in.
pub open spec fn write_record(table: Seq<char>, key: Seq<u8>, value: JsonView) -> JsonView {
    JsonView::Object(
        map![
            "key"@ => bytes_json(key),
            "value"@ => value,
            "table"@ => JsonView::Text(table),
        ],
    )
}

/// Makes the record of a write.
pub fn make_write_record(table: &str, key: &Vec<u8>, value: Value) -> (record: Value)
    ensures
        json_view(record) == write_record(table@, key@, json_view(value)),
{
    let mut fields: serde_json::Map<String, Value> = no_fields();
    add_field(&mut fields, "key", json_from_bytes(copy_bytes(key.as_slice())));
    add_field(&mut fields, "value", value);
    add_field(&mut fields, "table", json_from_text(table.to_owned()));
    json_from_fields(fields)
}

/// What `base64::prelude::BASE64_STANDARD` decodes a text to: nothing where
/// the text is rejected.
pub uninterp spec fn base64_decoded(text: Seq<char>) -> Option<Seq<u8>>;

/// Why `base64` rejected a text.
#[verifier::external_type_specification]
#[verifier::external_body]
pub struct ExDecodeError(base64::DecodeError);

/// Decodes padded base64 in the standard alphabet, by `Engine::decode` of
/// `base64::prelude::BASE64_STANDARD`. Which texts are accepted, and what they
/// decode to, is [`base64_decoded`].
#[verifier::external_body]
pub(crate) fn base64_decode(text: &str) -> (r: Result<Vec<u8>, base64::DecodeError>)
    ensures
        match r {
            Ok(bytes) => base64_decoded(text@) == Some(bytes@),
            Err(_) => base64_decoded(text@) is None,
        },
{
    base64::Engine::decode(&base64::prelude::BASE64_STANDARD, text)
}

/// A text that is no base64.
#[derive(Debug, PartialEq)]
pub struct InvalidBase64;

/// Reads a byte string from the base64 text that stands for it in JSON.
pub fn deserialize_bytes(text: String) -> (r: Result<Vec<u8>, InvalidBase64>)
    ensures
        match r {
            Ok(bytes) => base64_decoded(text@) == Some(bytes@),
            Err(_) => base64_decoded(text@) is None,
        },
{
    match base64_decode(text.as_str()) {
        Ok(bytes) => Ok(bytes),
        Err(_) => Err(InvalidBase64),
    }
}

/// The values that a backend holds itself: version and value by table and key.
pub type Contents = Map<(Seq<char>, Seq<u8>), (i64, Seq<u8>)>;

/// What a backend holds: its values, the records of the writes since the last
/// reset, and the keys that are known to be stale.
pub struct StoreView {
    pub store: Contents,
    pub writes: Seq<JsonView>,
    pub stale: Seq<StaleKeyView>,
}

/// A backend that holds nothing.
pub open spec fn empty_store() -> StoreView {
    StoreView { store: Map::empty(), writes: Seq::empty(), stale: Seq::empty() }
}

/// A backend that holds values under keys, keeps a record of its writes and
/// knows which of its keys are stale. What needs the network is handed to the
/// caller as a request.
pub trait Storage: Sized + Send {
    /// A clone of the backend. It shares the backend's values, which stay with
    /// the backend, and has records and stale keys of its own.
    type Shared;

    /// What a clone holds, given the values of the backend that it belongs to.
    spec fn held_by(clone: &Self::Shared, values: Contents) -> StoreView;

    /// Whether a clone belongs to a backend of this kind.
    spec fn has_clone(&self, clone: &Self::Shared) -> bool;

    /// What the backend holds.
    spec fn held(&self) -> StoreView;

    /// Whether two backends are of the same kind, in whatever state each is.
    spec fn same_kind(&self, other: &Self) -> bool;

    /// Whether a value can be put under a key.
    spec fn can_put(&self, table: Seq<char>, key: Seq<u8>, value: Seq<u8>) -> bool;

    /// Whether a list of updates can be applied one after the other.
    spec fn can_update(&self, items: Seq<UpdateView>) -> bool;

    /// What the backend holds after a put.
    spec fn held_after_put(&self, table: Seq<char>, key: Seq<u8>, value: Seq<u8>) -> StoreView;

    /// What the backend holds after a batch of updates.
    spec fn held_after_update(&self, items: Seq<UpdateView>) -> StoreView;

    /// What is left to do for a put.
    spec fn put_result(&self, table: Seq<char>, key: Seq<u8>, value: Seq<u8>) -> PutStepView;

    /// What is left to do for a get.
    spec fn get_result(&self, table: Seq<char>, key: Seq<u8>) -> GetStepView;

    /// What is left to do for a batch of gets.
    spec fn batch_get_result(&self, pairs: Seq<(Seq<char>, Seq<u8>)>) -> BatchGetStepView;

    /// What is left to do for a batch of updates.
    spec fn batch_update_result(&self, items: Seq<UpdateView>) -> BatchUpdateStepView;

    /// Makes a clone. It starts with the records and the stale keys of the
    /// backend.
    fn share(&self) -> (clone: Self::Shared)
        ensures
            self.has_clone(&clone),
            Self::held_by(&clone, self.held().store) == self.held(),
    ;

    /// Exchanges the records and the stale keys with those of a clone: until
    /// they are exchanged again, what is done to the backend the clone does. A
    /// clone of another kind of backend changes nothing.
    fn exchange(&mut self, clone: &mut Self::Shared)
        ensures
            old(self).has_clone(old(clone)) ==> {
                &&& final(self).held() == Self::held_by(old(clone), old(self).held().store)
                &&& Self::held_by(final(clone), old(self).held().store) == old(self).held()
                &&& final(self).has_clone(final(clone))
            },
            !old(self).has_clone(old(clone)) ==> *final(self) == *old(self) && *final(clone)
                == *old(clone),
            final(self).same_kind(old(self)),
    ;

    /// Puts a value under a key.
    fn put(&mut self, table: String, key: Vec<u8>, value: Vec<u8>) -> (step: PutStep)
        requires
            old(self).can_put(table@, key@, value@),
        ensures
            step@ == old(self).put_result(table@, key@, value@),
            final(self).held() == old(self).held_after_put(table@, key@, value@),
            final(self).held().stale == old(self).held().stale,
            final(self).same_kind(old(self)),
    ;

    /// Puts a value under a key if it can be put, and changes nothing if not.
    fn try_put(&mut self, table: String, key: Vec<u8>, value: Vec<u8>) -> (step: Option<PutStep>)
        ensures
            step is Some <==> old(self).can_put(table@, key@, value@),
            step matches Some(s) ==> s@ == old(self).put_result(table@, key@, value@),
            step is Some ==> final(self).held() == old(self).held_after_put(
                table@,
                key@,
                value@,
            ),
            step is None ==> *final(self) == *old(self),
            final(self).held().stale == old(self).held().stale,
            final(self).same_kind(old(self)),
    ;

    /// Reads the version and the value of a key.
    fn get(&self, table: String, key: &Vec<u8>) -> (step: GetStep)
        ensures
            step@ == self.get_result(table@, key@),
    ;

    /// Reads the versions of several keys.
    fn batch_get(&self, table_key_pairs: &Vec<(String, Vec<u8>)>) -> (step: BatchGetStep)
        ensures
            step@ == self.batch_get_result(pair_views(table_key_pairs@)),
    ;

    /// Applies updates in order.
    fn batch_update(&mut self, table_key_pairs: &Vec<UpdateItem>) -> (step: BatchUpdateStep)
        requires
            old(self).can_update(update_views(table_key_pairs@)),
        ensures
            step@ == old(self).batch_update_result(update_views(table_key_pairs@)),
            final(self).held() == old(self).held_after_update(update_views(table_key_pairs@)),
            final(self).held().stale == old(self).held().stale,
            final(self).same_kind(old(self)),
    ;

    /// Applies updates in order if all of them can be applied, and changes
    /// nothing if not.
    fn try_batch_update(&mut self, table_key_pairs: &Vec<UpdateItem>) -> (step: Option<
        BatchUpdateStep,
    >)
        ensures
            step is Some <==> old(self).can_update(update_views(table_key_pairs@)),
            step matches Some(s) ==> s@ == old(self).batch_update_result(
                update_views(table_key_pairs@),
            ),
            step is Some ==> final(self).held() == old(self).held_after_update(
                update_views(table_key_pairs@),
            ),
            step is None ==> *final(self) == *old(self),
            final(self).held().stale == old(self).held().stale,
            final(self).same_kind(old(self)),
    ;

    /// Forgets the recorded writes.
    fn reset_writes(&mut self)
        ensures
            final(self).held() == (StoreView { writes: Seq::empty(), ..old(self).held() }),
            final(self).same_kind(old(self)),
    ;

    /// The recorded writes, in order.
    fn get_all_writes(&self) -> (writes: Vec<Value>)
        ensures
            json_views(writes@) == self.held().writes,
    ;

    /// Whether a key is known to be stale.
    fn is_key_stale(&self, table: &str, key: &Vec<u8>) -> (stale: bool)
        ensures
            stale == is_stale(self.held().stale, table@, key@),
    ;

    /// Takes a new list of stale keys in place of the old one.
    fn update_stale_keys(&mut self, stale_keys: Vec<StaleKeyInfo>)
        ensures
            final(self).held() == (StoreView {
                stale: stale_views(stale_keys@),
                ..old(self).held()
            }),
            final(self).same_kind(old(self)),
    ;

    /// The keys that are known to be stale.
    fn get_stale_keys(&self) -> (keys: Vec<StaleKeyInfo>)
        ensures
            stale_views(keys@) == self.held().stale,
    ;

    /// Forgets the stale keys.
    fn clear_stale_keys(&mut self)
        ensures
            final(self).held() == (StoreView { stale: Seq::empty(), ..old(self).held() }),
            final(self).same_kind(old(self)),
    ;
}

/// Whether a key of a table is in a list of stale keys.
pub(crate) fn find_stale(keys: &Vec<StaleKeyInfo>, table: &str, key: &Vec<u8>) -> (found: bool)
    ensures
        found == is_stale(stale_views(keys@), table@, key@),
{
    let mut i: usize = 0;
    while i < keys.len()
        invariant
            i <= keys.len(),
            forall|j: int|
                0 <= j < i ==> !((#[trigger] stale_views(keys@)[j]).table == table@
                    && stale_views(keys@)[j].key == key@),
        decreases keys.len() - i,
    {
        if text_eq(keys[i].table.as_str(), table) && bytes_eq(
            keys[i].key.as_slice(),
            key.as_slice(),
        ) {
            assert(stale_views(keys@)[i as int].table == table@);
            return true;
        }
        i = i + 1;
    }
    false
}

/// A copy of a list of stale keys.
pub(crate) fn copy_stale(keys: &Vec<StaleKeyInfo>) -> (copy: Vec<StaleKeyInfo>)
    ensures
        stale_views(copy@) == stale_views(keys@),
{
    let mut copy: Vec<StaleKeyInfo> = Vec::new();
    let mut i: usize = 0;
    while i < keys.len()
        invariant
            i <= keys.len(),
            copy.len() == i,
            forall|j: int| 0 <= j < i ==> (#[trigger] copy@[j])@ == keys@[j]@,
        decreases keys.len() - i,
    {
        let entry: StaleKeyInfo = StaleKeyInfo {
            table: keys[i].table.clone(),
            key: copy_bytes(keys[i].key.as_slice()),
            is_value_replicated: keys[i].is_value_replicated,
        };
        copy.push(entry);
        i = i + 1;
    }
    assert(stale_views(copy@) =~= stale_views(keys@));
    copy
}

} // verus!
