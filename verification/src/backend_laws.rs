//! What the backends do with keys and values, from what goes in to what comes
//! out.

use crate::bytes::pair_views;
use crate::dummy::{
    accepts, accepts_all, after_store, after_updates, law_updates_are_recorded, lookup, table_view,
    versions_of, DummyClone, DummyStorage,
};
use crate::dynamo::{
    all_keyed, get_request, id_item, item_key, item_version, keys_entries, keys_of,
    law_batch_get_groups_by_table, law_batches_hold_every_update, law_read_after_write, put_item,
    put_request, response_versions, response_views, table_versions, write_batches, DynamoStore,
};
use crate::json::{bytes_json, json_parsed, json_view, json_views, JsonView};
use crate::numbers::{int_text, version_value};
use crate::provider::{StorageClone, StorageProvider};
use crate::storage::{
    is_stale, item_view, item_views, stale_views, update_views, version_views, write_record,
    Attribute, BatchGetStep, BatchGetStepView, BatchUpdateStep, BatchUpdateStepView, GetStep,
    GetStepView, Item, KeysEntry, PutStep, PutStepView, StaleKeyInfo, Storage, StoreView,
    UpdateItem, UpdateView, Versions, WriteBatch,
};
use crate::view_laws::{
    attribute_holds, is_byte_array, law_bytes_are_an_array_of_integers,
    law_items_are_seen_attribute_by_attribute, law_items_are_seen_one_by_one,
    law_pairs_are_seen_one_by_one, law_stale_keys_are_seen_one_by_one,
    law_updates_are_seen_one_by_one, law_values_are_seen_one_by_one,
    law_versions_are_seen_one_by_one, lemma_records_write, lemma_same_stale, lemma_same_values,
    records_write, same_stale, same_values,
};
use serde_json::Value;
use vstd::prelude::*;

verus! {

/// An item holds the whole of a key and nothing else.
pub open spec fn holds_only_key(item: Map<Seq<char>, Attribute>, key: Seq<u8>) -> bool {
    &&& item.dom() == set!["id"@]
    &&& item["id"@] matches Attribute::B(bytes) && bytes@ == key
}

/// An item holds the key, the value and the version of an update, and nothing
/// else.
pub open spec fn holds_update(item: Map<Seq<char>, Attribute>, update: UpdateItem) -> bool {
    &&& item.dom() == set!["id"@, "object_value"@, "version"@]
    &&& item["id"@] matches Attribute::B(key) && key@ == update.key@
    &&& item["object_value"@] matches Attribute::B(value) && value@ == update.value@
    &&& item["version"@] matches Attribute::N(text) && text@ == int_text(update.version as int)
}

/// A record joined a list behind the ones that were there.
pub open spec fn one_more_record(
    before: Seq<Value>,
    after: Seq<Value>,
    table: Seq<char>,
    key: Seq<u8>,
    value: JsonView,
) -> bool {
    &&& after.len() == before.len() + 1
    &&& same_values(after.drop_last(), before)
    &&& records_write(json_view(after.last()), table, key, value)
}

/// A key stands somewhere in a list of stale keys, under its table.
pub open spec fn stands_in(keys: Seq<StaleKeyInfo>, table: Seq<char>, key: Seq<u8>) -> bool {
    exists|i: int|
        0 <= i < keys.len() && (#[trigger] keys[i]).table@ == table && keys[i].key@ == key
}

/// An item that holds only a key, as its view shows it.
proof fn lemma_holds_only_key(item: Map<Seq<char>, Attribute>, key: Seq<u8>)
    requires
        item_view(item) == id_item(key),
    ensures
        holds_only_key(item, key),
{
    law_items_are_seen_attribute_by_attribute(item);
    assert(id_item(key).dom() =~= set!["id"@]);
    assert(item.contains_key("id"@));
}

/// An item that holds an update, as its view shows it.
proof fn lemma_holds_update(item: Map<Seq<char>, Attribute>, update: UpdateItem)
    requires
        item_view(item) == put_item(update@),
    ensures
        holds_update(item, update),
{
    reveal_strlit("id");
    reveal_strlit("version");
    reveal_strlit("object_value");
    assert("id"@.len() == 2);
    assert("version"@.len() == 7);
    assert("object_value"@.len() == 12);
    law_items_are_seen_attribute_by_attribute(item);
    assert(put_item(update@).dom() =~= set!["id"@, "object_value"@, "version"@]);
    assert(item.contains_key("id"@));
    assert(item.contains_key("object_value"@));
    assert(item.contains_key("version"@));
}

/// A list of records that grew by one, as its view shows it.
proof fn lemma_one_more_record(
    before: Seq<Value>,
    after: Seq<Value>,
    table: Seq<char>,
    key: Seq<u8>,
    value: JsonView,
)
    requires
        json_views(after) == json_views(before).push(write_record(table, key, value)),
    ensures
        one_more_record(before, after, table, key, value),
{
    lemma_records_write(table, key, value);
    law_values_are_seen_one_by_one(before);
    law_values_are_seen_one_by_one(after);
    assert(json_views(after).len() == json_views(before).len() + 1);
    assert(json_views(after).last() == write_record(table, key, value));
    assert(json_views(after)[after.len() - 1] == json_view(after[after.len() - 1]));
    assert forall|i: int| 0 <= i < before.len() implies json_view(
        #[trigger] after.drop_last()[i],
    ) == json_view(before[i]) by {
        assert(json_views(after)[i] == json_view(after[i]));
        assert(json_views(before)[i] == json_view(before[i]));
    }
}

/// A stale key stands in the list whose view shows it.
proof fn lemma_stands_in(keys: Seq<StaleKeyInfo>, table: Seq<char>, key: Seq<u8>)
    ensures
        is_stale(stale_views(keys), table, key) == stands_in(keys, table, key),
{
    law_stale_keys_are_seen_one_by_one(keys);
    let views = stale_views(keys);
    if is_stale(views, table, key) {
        let i = choose|i: int|
            0 <= i < views.len() && (#[trigger] views[i]).table == table && views[i].key == key;
        assert(keys[i].table@ == table);
    }
    if stands_in(keys, table, key) {
        let i = choose|i: int|
            0 <= i < keys.len() && (#[trigger] keys[i]).table@ == table && keys[i].key@ == key;
        assert(views[i].table == table);
    }
}

/// A get of the database asks for the whole key in its table, with a
/// consistent read.
pub open spec fn asks_for_key(step: GetStep, table: Seq<char>, key: Seq<u8>) -> bool {
    step matches GetStep::Send(request) && {
        &&& request.table_name@ == table
        &&& holds_only_key(request.key@, key)
        &&& request.consistent_read
    }
}

/// A put of the database is sent for the whole key in its table, with the
/// whole value, and counts the version up by one.
pub open spec fn sends_put(
    step: PutStep,
    table: Seq<char>,
    key: Seq<u8>,
    value: Seq<u8>,
) -> bool {
    step matches PutStep::Send(request) && {
        let values = request.expression_attribute_values@;
        &&& request.table_name@ == table
        &&& holds_only_key(request.key@, key)
        &&& values.dom() == set![":value"@, ":one"@]
        &&& values[":value"@] matches Attribute::B(bytes) && bytes@ == value
        &&& values[":one"@] matches Attribute::N(text) && text@ == "1"@
        &&& request.update_expression@ == "ADD version :one SET object_value = :value"@
    }
}

/// The keys that a list of pairs holds for one table, in their order.
pub open spec fn table_keys(pairs: Seq<(String, Vec<u8>)>, table: Seq<char>) -> Seq<Seq<u8>> {
    pairs.filter_map(
        |pair: (String, Vec<u8>)|
            if pair.0@ == table {
                Some(pair.1@)
            } else {
                None
            },
    )
}

/// One entry asks for the versions of all keys of its table, in their order.
pub open spec fn asks_for_table(entry: KeysEntry, pairs: Seq<(String, Vec<u8>)>) -> bool {
    let keys = table_keys(pairs, entry.table_name@);
    &&& entry.keys@.len() == keys.len()
    &&& keys.len() > 0
    &&& forall|k: int|
        0 <= k < keys.len() ==> holds_only_key((#[trigger] entry.keys@[k])@, keys[k])
    &&& entry.projection_expression@ == "id,version"@
    &&& entry.consistent_read
}

/// A batch of gets of the database asks for every key in the entry of its
/// table, and has one entry for each table.
pub open spec fn asks_for_keys(step: BatchGetStep, pairs: Seq<(String, Vec<u8>)>) -> bool {
    step matches BatchGetStep::Send(entries) && {
        &&& forall|i: int, j: int|
            0 <= i < j < entries@.len() ==> (#[trigger] entries@[i]).table_name@ != (
            #[trigger] entries@[j]).table_name@
        &&& forall|i: int|
            0 <= i < entries@.len() ==> asks_for_table(#[trigger] entries@[i], pairs)
        &&& forall|p: int|
            0 <= p < pairs.len() ==> exists|i: int|
                0 <= i < entries@.len() && (#[trigger] entries@[i]).table_name@ == (
                #[trigger] pairs[p]).0@
    }
}

/// A batch of updates of the database is sent in order, twenty items to a
/// request and the rest in the last one.
pub open spec fn sends_updates(step: BatchUpdateStep, updates: Seq<UpdateItem>) -> bool {
    step matches BatchUpdateStep::Send(batches) && {
        &&& 20 * batches@.len() < updates.len() + 20 && updates.len() <= 20 * batches@.len()
        &&& forall|b: int|
            0 <= b < batches@.len() ==> {
                &&& (#[trigger] batches@[b]).table_name@ == "radical_testing"@
                &&& batches@[b].items@.len() == if b + 1 < batches@.len() {
                    20
                } else {
                    updates.len() - 20 * b
                }
                &&& forall|k: int|
                    0 <= k < batches@[b].items@.len() ==> holds_update(
                        (#[trigger] batches@[b].items@[k])@,
                        updates[20 * b + k],
                    )
            }
    }
}

/// Nothing of the backend has changed.
pub open spec fn dynamo_kept(before: DynamoStore, after: DynamoStore) -> bool {
    &&& same_values(after.all_writes@, before.all_writes@)
    &&& same_stale(after.stale_keys@, before.stale_keys@)
}

/// The backend has one more record, of a write with its bytes.
pub open spec fn dynamo_recorded(
    before: DynamoStore,
    after: DynamoStore,
    table: Seq<char>,
    key: Seq<u8>,
    value: Seq<u8>,
) -> bool {
    &&& exists|json: JsonView| #[trigger]
        is_byte_array(json, value) && one_more_record(
            before.all_writes@,
            after.all_writes@,
            table,
            key,
            json,
        )
    &&& same_stale(after.stale_keys@, before.stale_keys@)
}

/// A get asks for its key where its view does.
proof fn lemma_asks_for_key(step: GetStep, table: Seq<char>, key: Seq<u8>)
    requires
        step@ == GetStepView::Send(get_request(table, key)),
    ensures
        asks_for_key(step, table, key),
{
    if let GetStep::Send(request) = step {
        lemma_holds_only_key(request.key@, key);
    }
}

/// A put sends its value where its view does.
proof fn lemma_sends_put(step: PutStep, table: Seq<char>, key: Seq<u8>, value: Seq<u8>)
    requires
        step@ == PutStepView::Send(put_request(table, key, value)),
    ensures
        sends_put(step, table, key, value),
{
    if let PutStep::Send(request) = step {
        lemma_holds_only_key(request.key@, key);
        reveal_strlit(":value");
        reveal_strlit(":one");
        assert(":value"@.len() == 6);
        assert(":one"@.len() == 4);
        let values = request.expression_attribute_values@;
        law_items_are_seen_attribute_by_attribute(values);
        assert(put_request(table, key, value).expression_attribute_values.dom()
            =~= set![":value"@, ":one"@]);
        assert(values.contains_key(":value"@));
        assert(values.contains_key(":one"@));
    }
}

/// The keys of a table are those that the pairs hold for it.
proof fn lemma_table_keys(pairs: Seq<(String, Vec<u8>)>, table: Seq<char>)
    ensures
        keys_of(pair_views(pairs), table) == table_keys(pairs, table),
    decreases pairs.len(),
{
    law_pairs_are_seen_one_by_one(pairs);
    if pairs.len() > 0 {
        lemma_table_keys(pairs.drop_last(), table);
        assert(pair_views(pairs).drop_last() =~= pair_views(pairs.drop_last()));
        assert(pair_views(pairs).last() == (pairs.last().0@, pairs.last().1@));
        assert(keys_of(pair_views(pairs), table) =~= table_keys(pairs, table));
    } else {
        assert(keys_of(pair_views(pairs), table) =~= table_keys(pairs, table));
    }
}

/// A batch of gets asks for its keys where its view does.
proof fn lemma_asks_for_keys(step: BatchGetStep, pairs: Seq<(String, Vec<u8>)>)
    requires
        step@ == BatchGetStepView::Send(keys_entries(pair_views(pairs))),
    ensures
        asks_for_keys(step, pairs),
{
    if let BatchGetStep::Send(entries) = step {
        let views = pair_views(pairs);
        let wanted = keys_entries(views);
        law_pairs_are_seen_one_by_one(pairs);
        law_batch_get_groups_by_table(views);
        let seen = entries@.map_values(|entry: KeysEntry| entry@);
        assert(seen == wanted);
        assert(entries@.len() == wanted.len());
        assert forall|i: int| 0 <= i < entries@.len() implies (#[trigger] entries@[i])@
            == wanted[i] by {
            assert(seen[i] == entries@[i]@);
        }
        assert forall|i: int, j: int| 0 <= i < j < entries@.len() implies (
        #[trigger] entries@[i]).table_name@ != (#[trigger] entries@[j]).table_name@ by {
            assert(wanted[i].table_name != wanted[j].table_name);
        }
        assert forall|i: int| 0 <= i < entries@.len() implies asks_for_table(
            #[trigger] entries@[i],
            pairs,
        ) by {
            let entry = entries@[i];
            assert(entry@ == wanted[i]);
            let keys = table_keys(pairs, entry.table_name@);
            lemma_table_keys(pairs, entry.table_name@);
            law_items_are_seen_one_by_one(entry.keys@);
            assert(wanted[i].keys == keys.map_values(|key: Seq<u8>| id_item(key)));
            assert forall|k: int| 0 <= k < keys.len() implies holds_only_key(
                (#[trigger] entry.keys@[k])@,
                keys[k],
            ) by {
                assert(wanted[i].keys[k] == id_item(keys[k]));
                assert(item_views(entry.keys@)[k] == item_view(entry.keys@[k]@));
                lemma_holds_only_key(entry.keys@[k]@, keys[k]);
            }
        }
        assert forall|p: int| 0 <= p < pairs.len() implies exists|i: int|
            0 <= i < entries@.len() && (#[trigger] entries@[i]).table_name@ == (
            #[trigger] pairs[p]).0@ by {
            assert(views[p].0 == pairs[p].0@);
            let i = choose|i: int|
                0 <= i < wanted.len() && (#[trigger] wanted[i]).table_name == views[p].0;
            assert(entries@[i]@ == wanted[i]);
        }
    }
}

/// A batch of updates sends them where its view does.
pub proof fn lemma_sends_updates(step: BatchUpdateStep, updates: Seq<UpdateItem>)
    requires
        step@ == BatchUpdateStepView::Send(write_batches(update_views(updates))),
    ensures
        sends_updates(step, updates),
{
    if let BatchUpdateStep::Send(batches) = step {
        let views = update_views(updates);
        let wanted = write_batches(views);
        law_updates_are_seen_one_by_one(updates);
        law_batches_hold_every_update(views);
        let seen = batches@.map_values(|batch: WriteBatch| batch@);
        assert(seen == wanted);
        assert(batches@.len() == wanted.len());
        assert forall|b: int| 0 <= b < batches@.len() implies {
            &&& (#[trigger] batches@[b]).table_name@ == "radical_testing"@
            &&& batches@[b].items@.len() == if b + 1 < batches@.len() {
                20
            } else {
                updates.len() - 20 * b
            }
            &&& forall|k: int|
                0 <= k < batches@[b].items@.len() ==> holds_update(
                    (#[trigger] batches@[b].items@[k])@,
                    updates[20 * b + k],
                )
        } by {
            let items = batches@[b].items@;
            assert(seen[b] == batches@[b]@);
            law_items_are_seen_one_by_one(items);
            assert(item_views(items) == wanted[b].items);
            assert forall|k: int| 0 <= k < items.len() implies holds_update(
                (#[trigger] items[k])@,
                updates[20 * b + k],
            ) by {
                assert(item_views(items)[k] == item_view(items[k]@));
                assert(views[20 * b + k] == updates[20 * b + k]@);
                lemma_holds_update(items[k]@, updates[20 * b + k]);
            }
        }
    }
}

/// A write is recorded where the view of the backend shows it.
proof fn lemma_dynamo_recorded(
    before: DynamoStore,
    after: DynamoStore,
    table: Seq<char>,
    key: Seq<u8>,
    value: Seq<u8>,
)
    requires
        after.held() == before.held_after_put(table, key, value),
    ensures
        dynamo_recorded(before, after, table, key, value),
{
    lemma_same_stale(after.stale_keys@, before.stale_keys@);
    law_bytes_are_an_array_of_integers(value);
    lemma_one_more_record(
        before.all_writes@,
        after.all_writes@,
        table,
        key,
        bytes_json(value),
    );
    assert(is_byte_array(bytes_json(value), value));
}

/// Backends with the same view have the same records and stale keys.
pub proof fn lemma_dynamo_kept(before: DynamoStore, after: DynamoStore)
    requires
        after.held() == before.held(),
    ensures
        dynamo_kept(before, after),
{
    lemma_same_stale(after.stale_keys@, before.stale_keys@);
    lemma_same_values(after.all_writes@, before.all_writes@);
}

/// A get of the database asks for the whole key in its table, with a consistent
/// read.
pub proof fn law_a_get_asks_for_its_key(
    store: DynamoStore,
    table: String,
    key: Vec<u8>,
    step: GetStep,
)
    requires
        call_ensures(<DynamoStore as Storage>::get, (&store, table, &key), step),
    ensures
        asks_for_key(step, table@, key@),
{
    lemma_asks_for_key(step, table@, key@);
}

/// Where the database is in use: a get of the database asks for the whole key
/// in its table, with a consistent read.
pub proof fn law_a_get_asks_for_its_key_by_the_provider(
    store: DynamoStore,
    table: String,
    key: Vec<u8>,
    step: GetStep,
)
    requires
        call_ensures(
            <StorageProvider as Storage>::get,
            (&StorageProvider::Dynamo(store), table, &key),
            step,
        ),
    ensures
        asks_for_key(step, table@, key@),
{
    lemma_asks_for_key(step, table@, key@);
}

/// A batch of gets of the database asks for every key in the entry of its
/// table, in order, and for nothing else.
pub proof fn law_a_batch_get_asks_for_its_keys(
    store: DynamoStore,
    pairs: Vec<(String, Vec<u8>)>,
    step: BatchGetStep,
)
    requires
        call_ensures(<DynamoStore as Storage>::batch_get, (&store, &pairs), step),
    ensures
        asks_for_keys(step, pairs@),
{
    lemma_asks_for_keys(step, pairs@);
}

/// Where the database is in use: a batch of gets of the database asks for every
/// key in the entry of its table, in order, and for nothing else.
pub proof fn law_a_batch_get_asks_for_its_keys_by_the_provider(
    store: DynamoStore,
    pairs: Vec<(String, Vec<u8>)>,
    step: BatchGetStep,
)
    requires
        call_ensures(
            <StorageProvider as Storage>::batch_get,
            (&StorageProvider::Dynamo(store), &pairs),
            step,
        ),
    ensures
        asks_for_keys(step, pairs@),
{
    lemma_asks_for_keys(step, pairs@);
}

/// A put of the database sends the whole key and the whole value and counts the
/// version up, and it is recorded behind the other writes.
pub proof fn law_a_put_sends_its_value(
    store: &mut DynamoStore,
    table: String,
    key: Vec<u8>,
    value: Vec<u8>,
    step: PutStep,
)
    requires
        call_ensures(<DynamoStore as Storage>::put, (store, table, key, value), step),
    ensures
        sends_put(step, table@, key@, value@),
        dynamo_recorded(*old(store), *final(store), table@, key@, value@),
{
    lemma_sends_put(step, table@, key@, value@);
    lemma_dynamo_recorded(*old(store), *final(store), table@, key@, value@);
}

/// Where the database is in use: a put of the database sends the whole key and
/// the whole value and counts the version up, and it is recorded behind the
/// other writes.
pub proof fn law_a_put_sends_its_value_by_the_provider(
    provider: &mut StorageProvider,
    table: String,
    key: Vec<u8>,
    value: Vec<u8>,
    step: PutStep,
)
    requires
        call_ensures(<StorageProvider as Storage>::put, (provider, table, key, value), step),
    ensures
        match (*old(provider), *final(provider)) {
            (StorageProvider::Dynamo(before), StorageProvider::Dynamo(after)) => {
                &&& sends_put(step, table@, key@, value@)
                &&& dynamo_recorded(before, after, table@, key@, value@)
            },
            (StorageProvider::Dynamo(_), _) => false,
            _ => true,
        },
{
    if let (StorageProvider::Dynamo(before), StorageProvider::Dynamo(after)) = (
        *old(provider),
        *final(provider),
    ) {
        lemma_sends_put(step, table@, key@, value@);
        lemma_dynamo_recorded(before, after, table@, key@, value@);
    }
}

/// A put of the database that is tried is always done.
pub proof fn law_a_tried_put_sends_its_value(
    store: &mut DynamoStore,
    table: String,
    key: Vec<u8>,
    value: Vec<u8>,
    step: Option<PutStep>,
)
    requires
        call_ensures(<DynamoStore as Storage>::try_put, (store, table, key, value), step),
    ensures
        step matches Some(s) && sends_put(s, table@, key@, value@),
        dynamo_recorded(*old(store), *final(store), table@, key@, value@),
{
    lemma_sends_put(step->0, table@, key@, value@);
    lemma_dynamo_recorded(*old(store), *final(store), table@, key@, value@);
}

/// Where the database is in use: a put of the database that is tried is always
/// done.
pub proof fn law_a_tried_put_sends_its_value_by_the_provider(
    provider: &mut StorageProvider,
    table: String,
    key: Vec<u8>,
    value: Vec<u8>,
    step: Option<PutStep>,
)
    requires
        call_ensures(<StorageProvider as Storage>::try_put, (provider, table, key, value), step),
    ensures
        match (*old(provider), *final(provider)) {
            (StorageProvider::Dynamo(before), StorageProvider::Dynamo(after)) => {
                &&& step matches Some(s) && sends_put(s, table@, key@, value@)
                &&& dynamo_recorded(before, after, table@, key@, value@)
            },
            (StorageProvider::Dynamo(_), _) => false,
            _ => true,
        },
{
    if let (StorageProvider::Dynamo(before), StorageProvider::Dynamo(after)) = (
        *old(provider),
        *final(provider),
    ) {
        lemma_sends_put(step->0, table@, key@, value@);
        lemma_dynamo_recorded(before, after, table@, key@, value@);
    }
}

/// A batch of updates of the database sends each of them whole and in order,
/// and leaves the records as they are.
pub proof fn law_a_batch_update_sends_every_update(
    store: &mut DynamoStore,
    updates: Vec<UpdateItem>,
    step: BatchUpdateStep,
)
    requires
        call_ensures(<DynamoStore as Storage>::batch_update, (store, &updates), step),
    ensures
        sends_updates(step, updates@),
        dynamo_kept(*old(store), *final(store)),
{
    lemma_sends_updates(step, updates@);
    lemma_dynamo_kept(*old(store), *final(store));
}

/// Where the database is in use: a batch of updates of the database sends each
/// of them whole and in order, and leaves the records as they are.
pub proof fn law_a_batch_update_sends_every_update_by_the_provider(
    provider: &mut StorageProvider,
    updates: Vec<UpdateItem>,
    step: BatchUpdateStep,
)
    requires
        call_ensures(<StorageProvider as Storage>::batch_update, (provider, &updates), step),
    ensures
        match (*old(provider), *final(provider)) {
            (StorageProvider::Dynamo(before), StorageProvider::Dynamo(after)) => {
                &&& sends_updates(step, updates@)
                &&& dynamo_kept(before, after)
            },
            (StorageProvider::Dynamo(_), _) => false,
            _ => true,
        },
{
    if let (StorageProvider::Dynamo(before), StorageProvider::Dynamo(after)) = (
        *old(provider),
        *final(provider),
    ) {
        lemma_sends_updates(step, updates@);
        lemma_dynamo_kept(before, after);
    }
}

/// A batch of updates of the database that is tried is always done.
pub proof fn law_a_tried_batch_update_sends_every_update(
    store: &mut DynamoStore,
    updates: Vec<UpdateItem>,
    step: Option<BatchUpdateStep>,
)
    requires
        call_ensures(<DynamoStore as Storage>::try_batch_update, (store, &updates), step),
    ensures
        step matches Some(s) && sends_updates(s, updates@),
        dynamo_kept(*old(store), *final(store)),
{
    lemma_sends_updates(step->0, updates@);
    lemma_dynamo_kept(*old(store), *final(store));
}

/// Where the database is in use: a batch of updates of the database that is
/// tried is always done.
pub proof fn law_a_tried_batch_update_sends_every_update_by_the_provider(
    provider: &mut StorageProvider,
    updates: Vec<UpdateItem>,
    step: Option<BatchUpdateStep>,
)
    requires
        call_ensures(<StorageProvider as Storage>::try_batch_update, (provider, &updates), step),
    ensures
        match (*old(provider), *final(provider)) {
            (StorageProvider::Dynamo(before), StorageProvider::Dynamo(after)) => {
                &&& step matches Some(s) && sends_updates(s, updates@)
                &&& dynamo_kept(before, after)
            },
            (StorageProvider::Dynamo(_), _) => false,
            _ => true,
        },
{
    if let (StorageProvider::Dynamo(before), StorageProvider::Dynamo(after)) = (
        *old(provider),
        *final(provider),
    ) {
        lemma_sends_updates(step->0, updates@);
        lemma_dynamo_kept(before, after);
    }
}

/// Updates of the database that go through a clone of it are all sent, whole
/// and in order, and leave the records as they are.
pub proof fn law_updates_of_the_database_go_through_a_clone(
    provider: &mut StorageProvider,
    updates: Vec<UpdateItem>,
    step: Option<BatchUpdateStep>,
)
    requires
        call_ensures(StorageProvider::update_through_clone, (provider, &updates), step),
    ensures
        match (*old(provider), *final(provider)) {
            (StorageProvider::Dynamo(before), StorageProvider::Dynamo(after)) => {
                &&& step matches Some(s) && sends_updates(s, updates@)
                &&& dynamo_kept(before, after)
            },
            (StorageProvider::Dynamo(_), _) => false,
            _ => true,
        },
{
    if let (StorageProvider::Dynamo(before), StorageProvider::Dynamo(after)) = (
        *old(provider),
        *final(provider),
    ) {
        lemma_sends_updates(step->0, updates@);
        lemma_dynamo_kept(before, after);
    }
}

/// The version that an item carries: a number that 64 bits hold.
pub open spec fn carried_version(item: Map<Seq<char>, Attribute>) -> Option<i64> {
    if item.contains_key("version"@) && item["version"@] is N {
        version_value(item["version"@]->N_0@)
    } else {
        None
    }
}

/// A reply to a get is read as the version and the whole value of its item.
/// Without an item, without a readable version or without a value there is
/// nothing.
pub proof fn law_a_reply_is_read_whole(item: Option<Item>, stored: Option<(i64, Vec<u8>)>)
    requires
        call_ensures(DynamoStore::finish_get, (item,), stored),
    ensures
        match item {
            Some(i) => if carried_version(i@) is Some && i@.contains_key("object_value"@)
                && i@["object_value"@] is B {
                stored matches Some((version, value)) && Some(version) == carried_version(i@)
                    && value@
                    == i@["object_value"@]->B_0@
            } else {
                stored is None
            },
            None => stored is None,
        },
{
    if let Some(i) = item {
        law_items_are_seen_attribute_by_attribute(i@);
        assert(i@.contains_key("version"@) ==> attribute_holds(
            i@["version"@],
            item_view(i@)["version"@],
        ));
        assert(i@.contains_key("object_value"@) ==> attribute_holds(
            i@["object_value"@],
            item_view(i@)["object_value"@],
        ));
    }
}

/// The items of a reply with their tables, one after the other.
pub open spec fn reply_items(responses: Seq<(String, Vec<Item>)>) -> Seq<
    (Seq<char>, Map<Seq<char>, Attribute>),
> {
    responses.flat_map(
        |entry: (String, Vec<Item>)|
            Seq::new(entry.1@.len(), |i: int| (entry.0@, entry.1@[i]@)),
    )
}

/// An item has a key.
pub open spec fn has_id(item: Map<Seq<char>, Attribute>) -> bool {
    item.contains_key("id"@) && item["id"@] is B
}

/// What is read of the items of a reply.
pub open spec fn read_of(items: Seq<(Seq<char>, Map<Seq<char>, Attribute>)>) -> Seq<
    (Seq<char>, Seq<u8>, Option<i64>),
> {
    items.map_values(
        |entry: (Seq<char>, Map<Seq<char>, Attribute>)|
            (entry.0, entry.1["id"@]->B_0@, carried_version(entry.1)),
    )
}

/// The key and the version that the view of an item shows are those that it
/// carries.
proof fn lemma_item_key(item: Map<Seq<char>, Attribute>)
    ensures
        item_key(item_view(item)) is Some <==> has_id(item),
        has_id(item) ==> item_key(item_view(item)) == Some(item["id"@]->B_0@),
        item_version(item_view(item)) == carried_version(item),
{
    law_items_are_seen_attribute_by_attribute(item);
    assert(item.contains_key("id"@) ==> attribute_holds(item["id"@], item_view(item)["id"@]));
    assert(item.contains_key("version"@) ==> attribute_holds(
        item["version"@],
        item_view(item)["version"@],
    ));
}

/// The versions of a reply are read of its items, one after the other.
proof fn lemma_reply_versions(responses: Seq<(String, Vec<Item>)>)
    requires
        all_keyed(response_views(responses)),
    ensures
        response_versions(response_views(responses)) == read_of(reply_items(responses)),
    decreases responses.len(),
{
    let views = response_views(responses);
    let pick = |entry: (String, Vec<Item>)|
        Seq::new(entry.1@.len(), |i: int| (entry.0@, entry.1@[i]@));
    if responses.len() > 0 {
        let rest = responses.drop_last();
        let last = responses.last();
        assert(views.drop_last() =~= response_views(rest));
        assert(all_keyed(response_views(rest))) by {
            assert forall|t: int, i: int|
                0 <= t < views.drop_last().len() && 0 <= i < views.drop_last()[t].1.len() implies
                item_key(#[trigger] views.drop_last()[t].1[i]) is Some by {
                assert(item_key(views[t].1[i]) is Some);
            }
        }
        lemma_reply_versions(rest);
        assert(rest.push(last) =~= responses);
        rest.lemma_flat_map_push(pick, last);
        assert(reply_items(responses) == reply_items(rest) + pick(last));
        let t = responses.len() - 1;
        assert(views[t] == (last.0@, item_views(last.1@)));
        law_items_are_seen_one_by_one(last.1@);
        assert(table_versions(last.0@, item_views(last.1@)) =~= read_of(pick(last))) by {
            assert forall|i: int| 0 <= i < last.1@.len() implies #[trigger] table_versions(
                last.0@,
                item_views(last.1@),
            )[i] == read_of(pick(last))[i] by {
                assert(item_views(last.1@)[i] == item_view(last.1@[i]@));
                assert(item_key(views[t].1[i]) is Some);
                lemma_item_key(last.1@[i]@);
            }
        }
        assert(read_of(reply_items(rest) + pick(last)) =~= read_of(reply_items(rest)) + read_of(
            pick(last),
        ));
    } else {
        assert(reply_items(responses) =~= Seq::empty());
        assert(read_of(reply_items(responses)) =~= Seq::empty());
    }
}

/// A reply is keyed exactly where every one of its items has a key.
pub proof fn law_a_reply_is_keyed_where_every_item_is(
    responses: Vec<(String, Vec<Item>)>,
    keyed: bool,
)
    requires
        call_ensures(DynamoStore::response_keyed, (&responses,), keyed),
    ensures
        keyed <==> forall|t: int, i: int|
            0 <= t < responses@.len() && 0 <= i < responses@[t].1@.len() ==> has_id(
                (#[trigger] responses@[t].1@[i])@,
            ),
{
    let views = response_views(responses@);
    assert forall|t: int, i: int|
        0 <= t < responses@.len() && 0 <= i < responses@[t].1@.len() implies has_id(
        (#[trigger] responses@[t].1@[i])@,
    ) == (item_key(views[t].1[i]) is Some) by {
        assert(views[t].1 == item_views(responses@[t].1@));
        law_items_are_seen_one_by_one(responses@[t].1@);
        assert(views[t].1[i] == item_view(responses@[t].1@[i]@));
        lemma_item_key(responses@[t].1@[i]@);
    }
    assert forall|t: int| 0 <= t < responses@.len() implies (#[trigger] views[t]).1.len()
        == responses@[t].1@.len() by {
        law_items_are_seen_one_by_one(responses@[t].1@);
    }
    if all_keyed(views) {
        assert forall|t: int, i: int|
            0 <= t < responses@.len() && 0 <= i < responses@[t].1@.len() implies has_id(
            (#[trigger] responses@[t].1@[i])@,
        ) by {
            assert(views[t].1.len() == responses@[t].1@.len());
            assert(item_key(views[t].1[i]) is Some);
        }
    } else {
        let (t, i) = choose|t: int, i: int|
            0 <= t < views.len() && 0 <= i < views[t].1.len() && !(item_key(
                #[trigger] views[t].1[i],
            ) is Some);
        assert(!has_id(responses@[t].1@[i]@));
    }
}

/// A reply to a batch of gets is read item by item, in order: each gives its
/// table, its whole key and the version that it carries. Without a reply there
/// is nothing.
pub proof fn law_a_batch_reply_is_read_whole(
    responses: Option<Vec<(String, Vec<Item>)>>,
    versions: Versions,
)
    requires
        call_ensures(DynamoStore::finish_batch_get, (responses,), versions),
        responses matches Some(r) ==> all_keyed(response_views(r@)),
    ensures
        version_views(versions@) == match responses {
            Some(r) => read_of(reply_items(r@)),
            None => Seq::empty(),
        },
{
    if let Some(r) = responses {
        lemma_reply_versions(r@);
    }
}

/// A get of the database asks for the item that an update under the same key
/// has stored.
pub proof fn law_a_get_finds_what_an_update_stored(
    update: UpdateItem,
    stored: Map<Seq<char>, Attribute>,
    table: String,
    store: DynamoStore,
    step: GetStep,
)
    requires
        call_ensures(<DynamoStore as Storage>::get, (&store, table, &update.key), step),
        holds_update(stored, update),
    ensures
        step matches GetStep::Send(request) && request.table_name@ == table@ && {
            &&& request.key@["id"@] matches Attribute::B(asked)
            &&& stored["id"@] matches Attribute::B(held)
            &&& asked@ == held@
        },
{
    lemma_asks_for_key(step, table@, update.key@);
}

/// The recorded writes of the database are given out whole and in order.
pub proof fn law_dynamo_writes_are_given_out(store: DynamoStore, writes: Vec<Value>)
    requires
        call_ensures(<DynamoStore as Storage>::get_all_writes, (&store,), writes),
    ensures
        same_values(writes@, store.all_writes@),
{
    lemma_same_values(writes@, store.all_writes@);
}

/// The stale keys of the database are given out whole and in order.
pub proof fn law_dynamo_stale_keys_are_given_out(store: DynamoStore, keys: Vec<StaleKeyInfo>)
    requires
        call_ensures(<DynamoStore as Storage>::get_stale_keys, (&store,), keys),
    ensures
        same_stale(keys@, store.stale_keys@),
{
    lemma_same_stale(keys@, store.stale_keys@);
}

/// A key of the database is stale exactly where it is listed under its table.
pub proof fn law_dynamo_key_is_stale_where_it_is_listed(
    store: DynamoStore,
    table: &str,
    key: Vec<u8>,
    stale: bool,
)
    requires
        call_ensures(<DynamoStore as Storage>::is_key_stale, (&store, table, &key), stale),
    ensures
        stale == stands_in(store.stale_keys@, table@, key@),
{
    lemma_stands_in(store.stale_keys@, table@, key@);
}

/// A reset of the database forgets its recorded writes and nothing else.
pub proof fn law_dynamo_writes_are_reset(store: &mut DynamoStore)
    requires
        call_ensures(<DynamoStore as Storage>::reset_writes, (store,), ()),
    ensures
        final(store).all_writes@.len() == 0,
        same_stale(final(store).stale_keys@, old(store).stale_keys@),
{
    law_values_are_seen_one_by_one(final(store).all_writes@);
    lemma_same_stale(final(store).stale_keys@, old(store).stale_keys@);
}

/// New stale keys of the database take the place of the old ones, and nothing
/// else changes.
pub proof fn law_dynamo_stale_keys_are_replaced(store: &mut DynamoStore, keys: Vec<StaleKeyInfo>)
    requires
        call_ensures(<DynamoStore as Storage>::update_stale_keys, (store, keys), ()),
    ensures
        same_stale(final(store).stale_keys@, keys@),
        same_values(final(store).all_writes@, old(store).all_writes@),
{
    lemma_same_stale(final(store).stale_keys@, keys@);
    lemma_same_values(final(store).all_writes@, old(store).all_writes@);
}

/// The database forgets its stale keys and nothing else.
pub proof fn law_dynamo_stale_keys_are_cleared(store: &mut DynamoStore)
    requires
        call_ensures(<DynamoStore as Storage>::clear_stale_keys, (store,), ()),
    ensures
        final(store).stale_keys@.len() == 0,
        same_values(final(store).all_writes@, old(store).all_writes@),
{
    law_stale_keys_are_seen_one_by_one(final(store).stale_keys@);
    lemma_same_values(final(store).all_writes@, old(store).all_writes@);
}

/// Through the provider: the recorded writes of the database are given out
/// whole and in order.
pub proof fn law_dynamo_writes_are_given_out_by_the_provider(
    store: DynamoStore,
    writes: Vec<Value>,
)
    requires
        call_ensures(
            <StorageProvider as Storage>::get_all_writes,
            (&StorageProvider::Dynamo(store),),
            writes,
        ),
    ensures
        same_values(writes@, store.all_writes@),
{
    lemma_same_values(writes@, store.all_writes@);
}

/// Through the provider: the stale keys of the database are given out whole and
/// in order.
pub proof fn law_dynamo_stale_keys_are_given_out_by_the_provider(
    store: DynamoStore,
    keys: Vec<StaleKeyInfo>,
)
    requires
        call_ensures(
            <StorageProvider as Storage>::get_stale_keys,
            (&StorageProvider::Dynamo(store),),
            keys,
        ),
    ensures
        same_stale(keys@, store.stale_keys@),
{
    lemma_same_stale(keys@, store.stale_keys@);
}

/// Through the provider: a key of the database is stale exactly where it is
/// listed under its table.
pub proof fn law_dynamo_key_is_stale_where_it_is_listed_by_the_provider(
    store: DynamoStore,
    table: &str,
    key: Vec<u8>,
    stale: bool,
)
    requires
        call_ensures(
            <StorageProvider as Storage>::is_key_stale,
            (&StorageProvider::Dynamo(store), table, &key),
            stale,
        ),
    ensures
        stale == stands_in(store.stale_keys@, table@, key@),
{
    lemma_stands_in(store.stale_keys@, table@, key@);
}

/// Through the provider: a reset of the database forgets its recorded writes
/// and nothing else.
pub proof fn law_dynamo_writes_are_reset_by_the_provider(provider: &mut StorageProvider)
    requires
        call_ensures(<StorageProvider as Storage>::reset_writes, (provider,), ()),
    ensures
        match (*old(provider), *final(provider)) {
            (StorageProvider::Dynamo(before), StorageProvider::Dynamo(after)) => {
                &&& after.all_writes@.len() == 0
                &&& same_stale(after.stale_keys@, before.stale_keys@)
            },
            (StorageProvider::Dynamo(_), _) => false,
            _ => true,
        },
{
    if let (StorageProvider::Dynamo(before), StorageProvider::Dynamo(after)) = (
        *old(provider),
        *final(provider),
    ) {
        law_values_are_seen_one_by_one(after.all_writes@);
        lemma_same_stale(after.stale_keys@, before.stale_keys@);
    }
}

/// Through the provider: new stale keys of the database take the place of the
/// old ones, and nothing else changes.
pub proof fn law_dynamo_stale_keys_are_replaced_by_the_provider(
    provider: &mut StorageProvider,
    keys: Vec<StaleKeyInfo>,
)
    requires
        call_ensures(<StorageProvider as Storage>::update_stale_keys, (provider, keys), ()),
    ensures
        match (*old(provider), *final(provider)) {
            (StorageProvider::Dynamo(before), StorageProvider::Dynamo(after)) => {
                &&& same_stale(after.stale_keys@, keys@)
                &&& same_values(after.all_writes@, before.all_writes@)
            },
            (StorageProvider::Dynamo(_), _) => false,
            _ => true,
        },
{
    if let (StorageProvider::Dynamo(before), StorageProvider::Dynamo(after)) = (
        *old(provider),
        *final(provider),
    ) {
        lemma_same_stale(after.stale_keys@, keys@);
        lemma_same_values(after.all_writes@, before.all_writes@);
    }
}

/// Through the provider: the database forgets its stale keys and nothing else.
pub proof fn law_dynamo_stale_keys_are_cleared_by_the_provider(provider: &mut StorageProvider)
    requires
        call_ensures(<StorageProvider as Storage>::clear_stale_keys, (provider,), ()),
    ensures
        match (*old(provider), *final(provider)) {
            (StorageProvider::Dynamo(before), StorageProvider::Dynamo(after)) => {
                &&& after.stale_keys@.len() == 0
                &&& same_values(after.all_writes@, before.all_writes@)
            },
            (StorageProvider::Dynamo(_), _) => false,
            _ => true,
        },
{
    if let (StorageProvider::Dynamo(before), StorageProvider::Dynamo(after)) = (
        *old(provider),
        *final(provider),
    ) {
        law_stale_keys_are_seen_one_by_one(after.stale_keys@);
        lemma_same_values(after.all_writes@, before.all_writes@);
    }
}

/// A new backend for the database has recorded no write and knows no stale key.
pub proof fn law_a_new_database_backend_is_empty(store: DynamoStore)
    requires
        call_ensures(DynamoStore::new, (), store),
    ensures
        store.all_writes@.len() == 0,
        store.stale_keys@.len() == 0,
{
    law_values_are_seen_one_by_one(store.all_writes@);
    law_stale_keys_are_seen_one_by_one(store.stale_keys@);
}

/// A clone of the backend for the database has its records and its stale keys.
pub proof fn law_a_cloned_database_backend_is_the_same(store: DynamoStore, copy: DynamoStore)
    requires
        call_ensures(<DynamoStore as Clone>::clone, (&store,), copy),
    ensures
        dynamo_kept(store, copy),
{
    lemma_dynamo_kept(store, copy);
}

/// A shared backend for the database has its records and its stale keys.
pub proof fn law_a_shared_database_backend_is_the_same(store: DynamoStore, copy: DynamoStore)
    requires
        call_ensures(<DynamoStore as Storage>::share, (&store,), copy),
    ensures
        dynamo_kept(store, copy),
{
    lemma_same_values(copy.all_writes@, store.all_writes@);
    lemma_same_stale(copy.stale_keys@, store.stale_keys@);
}

/// Backends for the database that are exchanged swap their records and their
/// stale keys.
pub proof fn law_exchanged_database_backends_swap_their_records(
    store: &mut DynamoStore,
    clone: &mut DynamoStore,
)
    requires
        call_ensures(<DynamoStore as Storage>::exchange, (store, clone), ()),
    ensures
        same_values(final(store).all_writes@, old(clone).all_writes@),
        same_stale(final(store).stale_keys@, old(clone).stale_keys@),
        same_values(final(clone).all_writes@, old(store).all_writes@),
        same_stale(final(clone).stale_keys@, old(store).stale_keys@),
{
    lemma_same_values(final(store).all_writes@, old(clone).all_writes@);
    lemma_same_stale(final(store).stale_keys@, old(clone).stale_keys@);
    lemma_same_values(final(clone).all_writes@, old(store).all_writes@);
    lemma_same_stale(final(clone).stale_keys@, old(store).stale_keys@);
}

/// What an in-memory backend holds under a key.
pub open spec fn held_under(store: DummyStorage, table: Seq<char>, key: Seq<u8>) -> Option<
    (i64, Seq<u8>),
> {
    if store.store@.contains_key((table, key)) {
        Some((store.store@[(table, key)].0, store.store@[(table, key)].1@))
    } else {
        None
    }
}

/// A key has been put so often that its version cannot be counted up.
pub open spec fn is_full(store: DummyStorage, table: Seq<char>, key: Seq<u8>) -> bool {
    held_under(store, table, key) matches Some((version, _)) && version == i64::MAX
}

/// A value was put under a key: it has the version zero where the key is new
/// and the next one where it is known, every other key is as it was, and the
/// write is recorded with the given JSON.
pub open spec fn dummy_stored(
    before: DummyStorage,
    after: DummyStorage,
    table: Seq<char>,
    key: Seq<u8>,
    value: Seq<u8>,
    json: JsonView,
) -> bool {
    &&& held_under(after, table, key) matches Some((version, held)) && held == value && version
        == match held_under(before, table, key) {
        Some((old_version, _)) => old_version + 1,
        None => 0,
    }
    &&& forall|other_table: Seq<char>, other_key: Seq<u8>|
        (other_table, other_key) != (table, key) ==> #[trigger] held_under(
            after,
            other_table,
            other_key,
        ) == held_under(before, other_table, other_key)
    &&& one_more_record(before.writes@, after.writes@, table, key, json)
    &&& same_stale(after.stale_keys@, before.stale_keys@)
}

/// Two in-memory backends hold the same values.
pub open spec fn same_contents(a: DummyStorage, b: DummyStorage) -> bool {
    forall|table: Seq<char>, key: Seq<u8>| #[trigger]
        held_under(a, table, key) == held_under(b, table, key)
}

/// What a backend holds under a key is what its view shows there.
proof fn lemma_held_under(store: DummyStorage, table: Seq<char>, key: Seq<u8>)
    ensures
        lookup(store@.store, table, key) == held_under(store, table, key),
{
    assert(store@.store.dom() =~= store.store@.dom());
}

/// Backends with the same view hold the same values.
proof fn lemma_same_contents(a: DummyStorage, b: DummyStorage)
    requires
        a@.store == b@.store,
    ensures
        same_contents(a, b),
{
    assert forall|table: Seq<char>, key: Seq<u8>| #[trigger] held_under(a, table, key)
        == held_under(b, table, key) by {
        lemma_held_under(a, table, key);
        lemma_held_under(b, table, key);
    }
}

/// A value that was stored, as the view shows it.
proof fn lemma_dummy_stored(
    before: DummyStorage,
    after: DummyStorage,
    table: Seq<char>,
    key: Seq<u8>,
    value: Seq<u8>,
    json: JsonView,
)
    requires
        after@ == after_store(before@, table, key, value, json),
        !is_full(before, table, key),
    ensures
        dummy_stored(before, after, table, key, value, json),
{
    lemma_held_under(before, table, key);
    lemma_held_under(after, table, key);
    lemma_one_more_record(before.writes@, after.writes@, table, key, json);
    lemma_same_stale(after.stale_keys@, before.stale_keys@);
    assert forall|other_table: Seq<char>, other_key: Seq<u8>|
        (other_table, other_key) != (table, key) implies #[trigger] held_under(
        after,
        other_table,
        other_key,
    ) == held_under(before, other_table, other_key) by {
        lemma_held_under(before, other_table, other_key);
        lemma_held_under(after, other_table, other_key);
    }
}

/// A get of the in-memory backend finds the version and the whole value that it
/// holds under the key, and nothing where it holds none.
pub proof fn law_a_get_finds_what_is_held(
    store: DummyStorage,
    table: String,
    key: Vec<u8>,
    step: GetStep,
)
    requires
        call_ensures(<DummyStorage as Storage>::get, (&store, table, &key), step),
    ensures
        step matches GetStep::Done(stored) && match held_under(store, table@, key@) {
            Some((version, value)) => stored matches Some((v, bytes)) && v == version
                && bytes@ == value,
            None => stored is None,
        },
{
    lemma_held_under(store, table@, key@);
}

/// Where values are kept in memory: a get of the in-memory backend finds the
/// version and the whole value that it holds under the key, and nothing where
/// it holds none.
pub proof fn law_a_get_finds_what_is_held_by_the_provider(
    store: DummyStorage,
    table: String,
    key: Vec<u8>,
    step: GetStep,
)
    requires
        call_ensures(
            <StorageProvider as Storage>::get,
            (&StorageProvider::Dummy(store), table, &key),
            step,
        ),
    ensures
        step matches GetStep::Done(stored) && match held_under(store, table@, key@) {
            Some((version, value)) => stored matches Some((v, bytes)) && v == version
                && bytes@ == value,
            None => stored is None,
        },
{
    lemma_held_under(store, table@, key@);
}

/// A batch of gets of the in-memory backend gives one entry for each key, in
/// order: its table, its whole key and the version that is held under it.
pub proof fn law_a_batch_get_finds_every_version(
    store: DummyStorage,
    pairs: Vec<(String, Vec<u8>)>,
    step: BatchGetStep,
)
    requires
        call_ensures(<DummyStorage as Storage>::batch_get, (&store, &pairs), step),
    ensures
        step matches BatchGetStep::Done(versions) && {
            &&& versions@.len() == pairs@.len()
            &&& forall|i: int|
                0 <= i < pairs@.len() ==> {
                    &&& (#[trigger] versions@[i]).0@ == pairs@[i].0@
                    &&& versions@[i].1@ == pairs@[i].1@
                    &&& versions@[i].2 == match held_under(store, pairs@[i].0@, pairs@[i].1@) {
                        Some((version, _)) => Some(version),
                        None => None,
                    }
                }
        },
{
    if let BatchGetStep::Done(versions) = step {
        let views = versions_of(store@.store, pair_views(pairs@));
        law_versions_are_seen_one_by_one(versions@);
        law_pairs_are_seen_one_by_one(pairs@);
        assert(version_views(versions@) == views);
        assert forall|i: int| 0 <= i < pairs@.len() implies {
            &&& (#[trigger] versions@[i]).0@ == pairs@[i].0@
            &&& versions@[i].1@ == pairs@[i].1@
            &&& versions@[i].2 == match held_under(store, pairs@[i].0@, pairs@[i].1@) {
                Some((version, _)) => Some(version),
                None => None,
            }
        } by {
            lemma_held_under(store, pairs@[i].0@, pairs@[i].1@);
            assert(version_views(versions@)[i] == views[i]);
            assert(pair_views(pairs@)[i] == (pairs@[i].0@, pairs@[i].1@));
        }
    }
}

/// Where values are kept in memory: a batch of gets of the in-memory backend
/// gives one entry for each key, in order: its table, its whole key and the
/// version that is held under it.
pub proof fn law_a_batch_get_finds_every_version_by_the_provider(
    store: DummyStorage,
    pairs: Vec<(String, Vec<u8>)>,
    step: BatchGetStep,
)
    requires
        call_ensures(
            <StorageProvider as Storage>::batch_get,
            (&StorageProvider::Dummy(store), &pairs),
            step,
        ),
    ensures
        step matches BatchGetStep::Done(versions) && {
            &&& versions@.len() == pairs@.len()
            &&& forall|i: int|
                0 <= i < pairs@.len() ==> {
                    &&& (#[trigger] versions@[i]).0@ == pairs@[i].0@
                    &&& versions@[i].1@ == pairs@[i].1@
                    &&& versions@[i].2 == match held_under(store, pairs@[i].0@, pairs@[i].1@) {
                        Some((version, _)) => Some(version),
                        None => None,
                    }
                }
        },
{
    if let BatchGetStep::Done(versions) = step {
        let views = versions_of(store@.store, pair_views(pairs@));
        law_versions_are_seen_one_by_one(versions@);
        law_pairs_are_seen_one_by_one(pairs@);
        assert(version_views(versions@) == views);
        assert forall|i: int| 0 <= i < pairs@.len() implies {
            &&& (#[trigger] versions@[i]).0@ == pairs@[i].0@
            &&& versions@[i].1@ == pairs@[i].1@
            &&& versions@[i].2 == match held_under(store, pairs@[i].0@, pairs@[i].1@) {
                Some((version, _)) => Some(version),
                None => None,
            }
        } by {
            lemma_held_under(store, pairs@[i].0@, pairs@[i].1@);
            assert(version_views(versions@)[i] == views[i]);
            assert(pair_views(pairs@)[i] == (pairs@[i].0@, pairs@[i].1@));
        }
    }
}

/// A put of the in-memory backend stores the whole value with the version that
/// comes next and records its JSON; no other key changes.
pub proof fn law_a_put_stores_its_value(
    store: &mut DummyStorage,
    table: String,
    key: Vec<u8>,
    value: Vec<u8>,
    step: PutStep,
)
    requires
        call_ensures(<DummyStorage as Storage>::put, (store, table, key, value), step),
        json_parsed(value@) is Some && !is_full(*old(store), table@, key@),
    ensures
        step is Done,
        dummy_stored(*old(store), *final(store), table@, key@, value@, json_parsed(value@)->0),
{
    lemma_dummy_stored(*old(store), *final(store), table@, key@, value@, json_parsed(value@)->0);
}

/// Where values are kept in memory: a put of the in-memory backend stores the
/// whole value with the version that comes next and records its JSON; no other
/// key changes.
pub proof fn law_a_put_stores_its_value_by_the_provider(
    provider: &mut StorageProvider,
    table: String,
    key: Vec<u8>,
    value: Vec<u8>,
    step: PutStep,
)
    requires
        call_ensures(<StorageProvider as Storage>::put, (provider, table, key, value), step),
        *old(provider) matches StorageProvider::Dummy(before) ==> json_parsed(value@) is Some
            && !is_full(before, table@, key@),
    ensures
        match (*old(provider), *final(provider)) {
            (StorageProvider::Dummy(before), StorageProvider::Dummy(after)) => {
                &&& step is Done
                &&& dummy_stored(before, after, table@, key@, value@, json_parsed(value@)->0)
            },
            (StorageProvider::Dummy(_), _) => false,
            _ => true,
        },
{
    if let (StorageProvider::Dummy(before), StorageProvider::Dummy(after)) = (
        *old(provider),
        *final(provider),
    ) {
        lemma_dummy_stored(before, after, table@, key@, value@, json_parsed(value@)->0);
    }
}

/// A put of the in-memory backend that is tried is done exactly where the value
/// is JSON and its version can be counted up, and changes nothing where it is
/// not done.
pub proof fn law_a_tried_put_stores_its_value(
    store: &mut DummyStorage,
    table: String,
    key: Vec<u8>,
    value: Vec<u8>,
    step: Option<PutStep>,
)
    requires
        call_ensures(<DummyStorage as Storage>::try_put, (store, table, key, value), step),
    ensures
        step is Some <==> json_parsed(value@) is Some && !is_full(*old(store), table@, key@),
        step is Some ==> step->0 is Done && dummy_stored(
            *old(store),
            *final(store),
            table@,
            key@,
            value@,
            json_parsed(value@)->0,
        ),
        step is None ==> *final(store) == *old(store),
{
    lemma_held_under(*old(store), table@, key@);
    if step is Some {
        lemma_dummy_stored(
            *old(store),
            *final(store),
            table@,
            key@,
            value@,
            json_parsed(value@)->0,
        );
    }
}

/// Where values are kept in memory: a put of the in-memory backend that is
/// tried is done exactly where the value is JSON and its version can be counted
/// up, and changes nothing where it is not done.
pub proof fn law_a_tried_put_stores_its_value_by_the_provider(
    provider: &mut StorageProvider,
    table: String,
    key: Vec<u8>,
    value: Vec<u8>,
    step: Option<PutStep>,
)
    requires
        call_ensures(<StorageProvider as Storage>::try_put, (provider, table, key, value), step),
    ensures
        match (*old(provider), *final(provider)) {
            (StorageProvider::Dummy(before), StorageProvider::Dummy(after)) => {
                &&& step is Some <==> json_parsed(value@) is Some && !is_full(before, table@, key@)
                &&& step is Some ==> step->0 is Done && dummy_stored(
                    before,
                    after,
                    table@,
                    key@,
                    value@,
                    json_parsed(value@)->0,
                )
                &&& step is None ==> after == before
            },
            (StorageProvider::Dummy(_), _) => false,
            _ => true,
        },
{
    if let (StorageProvider::Dummy(before), StorageProvider::Dummy(after)) = (
        *old(provider),
        *final(provider),
    ) {
        lemma_held_under(before, table@, key@);
        if step is Some {
            lemma_dummy_stored(before, after, table@, key@, value@, json_parsed(value@)->0);
        }
    }
}

/// A value whose JSON was read is stored whole with the version that comes
/// next, and its JSON is recorded; no other key changes.
pub proof fn law_a_stored_value_gets_the_next_version(
    store: &mut DummyStorage,
    table: String,
    key: Vec<u8>,
    value: Vec<u8>,
    parsed: Value,
)
    requires
        call_ensures(DummyStorage::store_value, (store, table, key, value, parsed), ()),
        !is_full(*old(store), table@, key@),
    ensures
        dummy_stored(*old(store), *final(store), table@, key@, value@, json_view(parsed)),
{
    lemma_dummy_stored(*old(store), *final(store), table@, key@, value@, json_view(parsed));
}

/// The values after updates that were done one after the other, and the
/// records behind the ones that were there.
pub open spec fn dummy_updated(
    before: DummyStorage,
    after: DummyStorage,
    updates: Seq<UpdateItem>,
) -> bool {
    &&& after@.store == after_updates(before@, update_views(updates)).store
    &&& after@.writes == after_updates(before@, update_views(updates)).writes
    &&& same_stale(after.stale_keys@, before.stale_keys@)
}

/// A batch of updates of the in-memory backend is done one after the other.
pub proof fn law_a_batch_update_is_done(
    store: &mut DummyStorage,
    updates: Vec<UpdateItem>,
    step: BatchUpdateStep,
)
    requires
        call_ensures(<DummyStorage as Storage>::batch_update, (store, &updates), step),
    ensures
        step is Done,
        dummy_updated(*old(store), *final(store), updates@),
{
    lemma_same_stale((*final(store)).stale_keys@, (*old(store)).stale_keys@);
}

/// Where values are kept in memory: a batch of updates of the in-memory backend
/// is done one after the other.
pub proof fn law_a_batch_update_is_done_by_the_provider(
    provider: &mut StorageProvider,
    updates: Vec<UpdateItem>,
    step: BatchUpdateStep,
)
    requires
        call_ensures(<StorageProvider as Storage>::batch_update, (provider, &updates), step),
    ensures
        match (*old(provider), *final(provider)) {
            (StorageProvider::Dummy(before), StorageProvider::Dummy(after)) => {
                &&& step is Done
                &&& dummy_updated(before, after, updates@)
            },
            (StorageProvider::Dummy(_), _) => false,
            _ => true,
        },
{
    if let (StorageProvider::Dummy(before), StorageProvider::Dummy(after)) = (
        *old(provider),
        *final(provider),
    ) {
        lemma_same_stale((after).stale_keys@, (before).stale_keys@);
    }
}

/// A batch of updates of the in-memory backend that is tried is done as a whole
/// or not at all.
pub proof fn law_a_tried_batch_update_is_done(
    store: &mut DummyStorage,
    updates: Vec<UpdateItem>,
    step: Option<BatchUpdateStep>,
)
    requires
        call_ensures(<DummyStorage as Storage>::try_batch_update, (store, &updates), step),
    ensures
        step is Some <==> accepts_all((*old(store))@, update_views(updates@)),
        step is Some ==> step->0 is Done && dummy_updated(*old(store), *final(store), updates@),
        step is None ==> *final(store) == *old(store),
{
    lemma_same_stale((*final(store)).stale_keys@, (*old(store)).stale_keys@);
}

/// Where values are kept in memory: a batch of updates of the in-memory backend
/// that is tried is done as a whole or not at all.
pub proof fn law_a_tried_batch_update_is_done_by_the_provider(
    provider: &mut StorageProvider,
    updates: Vec<UpdateItem>,
    step: Option<BatchUpdateStep>,
)
    requires
        call_ensures(<StorageProvider as Storage>::try_batch_update, (provider, &updates), step),
    ensures
        match (*old(provider), *final(provider)) {
            (StorageProvider::Dummy(before), StorageProvider::Dummy(after)) => {
                &&& step is Some <==> accepts_all((before)@, update_views(updates@))
                &&& step is Some ==> step->0 is Done && dummy_updated(before, after, updates@)
                &&& step is None ==> after == before
            },
            (StorageProvider::Dummy(_), _) => false,
            _ => true,
        },
{
    if let (StorageProvider::Dummy(before), StorageProvider::Dummy(after)) = (
        *old(provider),
        *final(provider),
    ) {
        lemma_same_stale((after).stale_keys@, (before).stale_keys@);
    }
}

/// Updates in memory that go through a clone are done as a whole or not at all,
/// and leave the records and the stale keys of the backend as they are.
pub proof fn law_updates_in_memory_go_through_a_clone(
    store: &mut DummyStorage,
    updates: Vec<UpdateItem>,
    step: Option<BatchUpdateStep>,
)
    requires
        call_ensures(DummyStorage::update_through_clone, (store, &updates), step),
    ensures
        step is Some <==> accepts_all(old(store)@, update_views(updates@)),
        step is Some ==> {
            &&& step->0 is Done
            &&& final(store)@.store == after_updates(old(store)@, update_views(updates@)).store
            &&& same_values(final(store).writes@, old(store).writes@)
            &&& same_stale(final(store).stale_keys@, old(store).stale_keys@)
        },
        step is None ==> *final(store) == *old(store),
{
    if step is Some {
        law_updates_are_recorded(old(store)@, update_views(updates@));
        lemma_same_values(final(store).writes@, old(store).writes@);
        lemma_same_stale(final(store).stale_keys@, old(store).stale_keys@);
    }
}

/// Updates that go through a clone of the provider are done in memory as a
/// whole or not at all, and leave the records and the stale keys of the backend
/// as they are.
pub proof fn law_updates_in_memory_go_through_a_clone_of_the_provider(
    provider: &mut StorageProvider,
    updates: Vec<UpdateItem>,
    step: Option<BatchUpdateStep>,
)
    requires
        call_ensures(StorageProvider::update_through_clone, (provider, &updates), step),
    ensures
        match (*old(provider), *final(provider)) {
            (StorageProvider::Dummy(before), StorageProvider::Dummy(after)) => {
                &&& step is Some <==> accepts_all(before@, update_views(updates@))
                &&& step is Some ==> {
                    &&& step->0 is Done
                    &&& after@.store == after_updates(before@, update_views(updates@)).store
                    &&& same_values(after.writes@, before.writes@)
                    &&& same_stale(after.stale_keys@, before.stale_keys@)
                }
                &&& step is None ==> after == before
            },
            (StorageProvider::Dummy(_), _) => false,
            _ => true,
        },
{
    if let (StorageProvider::Dummy(before), StorageProvider::Dummy(after)) = (
        *old(provider),
        *final(provider),
    ) {
        if step is Some {
            law_updates_are_recorded(before@, update_views(updates@));
            lemma_same_values(after.writes@, before.writes@);
            lemma_same_stale(after.stale_keys@, before.stale_keys@);
        }
    }
}

/// The version that a put under a key gets: zero for a new key, the next one
/// for a known one.
pub open spec fn version_to_come(
    contents: Map<(Seq<char>, Seq<u8>), (i64, Seq<u8>)>,
    table: Seq<char>,
    key: Seq<u8>,
) -> int {
    if contents.contains_key((table, key)) {
        contents[(table, key)].0 + 1
    } else {
        0
    }
}

/// Updates are puts, one after the other: no update changes nothing, and one
/// more update puts its value under its key, with the version that comes next
/// there, behind all the others, and records its JSON behind their records.
pub proof fn law_updates_are_puts_in_order(
    before: StoreView,
    items: Seq<UpdateView>,
    item: UpdateView,
)
    ensures
        after_updates(before, Seq::empty()) == before,
        ({
            let some = after_updates(before, items);
            let more = after_updates(before, items.push(item));
            &&& more.store == some.store.insert(
                (item.table, item.key),
                (version_to_come(some.store, item.table, item.key) as i64, item.value),
            )
            &&& more.writes.len() == some.writes.len() + 1
            &&& more.writes.drop_last() == some.writes
            &&& records_write(
                more.writes.last(),
                item.table,
                item.key,
                json_parsed(item.value).unwrap(),
            )
            &&& more.stale == some.stale
        }),
{
    assert(items.push(item).drop_last() =~= items);
    lemma_records_write(item.table, item.key, json_parsed(item.value).unwrap());
    let some = after_updates(before, items);
    let more = after_updates(before, items.push(item));
    assert(more.writes.drop_last() =~= some.writes);
}

/// Updates can be done exactly where each of them can be done behind the ones
/// before it: where its value is JSON and its version can be counted up.
pub proof fn law_updates_are_accepted_one_by_one(
    before: StoreView,
    items: Seq<UpdateView>,
    item: UpdateView,
)
    ensures
        accepts_all(before, Seq::empty()),
        accepts_all(before, items.push(item)) <==> {
            &&& accepts_all(before, items)
            &&& json_parsed(item.value) is Some
            &&& version_to_come(after_updates(before, items).store, item.table, item.key)
                <= i64::MAX
        },
{
    let more = items.push(item);
    assert(more.take(items.len() as int) =~= items);
    assert(more[items.len() as int] == item);
    assert forall|i: int| 0 <= i < items.len() implies #[trigger] more.take(i) == items.take(
        i,
    ) by {
        assert(more.take(i) =~= items.take(i));
    }
    if accepts_all(before, more) {
        assert forall|i: int| 0 <= i < items.len() implies accepts(
            after_updates(before, items.take(i)).store,
            (#[trigger] items[i]).table,
            items[i].key,
            items[i].value,
        ) by {
            assert(more[i] == items[i]);
            assert(more.take(i) == items.take(i));
        }
    }
    if accepts_all(before, items) && accepts(
        after_updates(before, items).store,
        item.table,
        item.key,
        item.value,
    ) {
        assert forall|i: int| 0 <= i < more.len() implies accepts(
            after_updates(before, more.take(i)).store,
            (#[trigger] more[i]).table,
            more[i].key,
            more[i].value,
        ) by {
            if i < items.len() {
                assert(more[i] == items[i]);
                assert(more.take(i) == items.take(i));
            }
        }
    }
}

/// The recorded writes of the in-memory backend are given out whole and in
/// order.
pub proof fn law_dummy_writes_are_given_out(store: DummyStorage, writes: Vec<Value>)
    requires
        call_ensures(<DummyStorage as Storage>::get_all_writes, (&store,), writes),
    ensures
        same_values(writes@, store.writes@),
{
    lemma_same_values(writes@, store.writes@);
}

/// The stale keys of the in-memory backend are given out whole and in order.
pub proof fn law_dummy_stale_keys_are_given_out(store: DummyStorage, keys: Vec<StaleKeyInfo>)
    requires
        call_ensures(<DummyStorage as Storage>::get_stale_keys, (&store,), keys),
    ensures
        same_stale(keys@, store.stale_keys@),
{
    lemma_same_stale(keys@, store.stale_keys@);
}

/// A key of the in-memory backend is stale exactly where it is listed under its
/// table.
pub proof fn law_dummy_key_is_stale_where_it_is_listed(
    store: DummyStorage,
    table: &str,
    key: Vec<u8>,
    stale: bool,
)
    requires
        call_ensures(<DummyStorage as Storage>::is_key_stale, (&store, table, &key), stale),
    ensures
        stale == stands_in(store.stale_keys@, table@, key@),
{
    lemma_stands_in(store.stale_keys@, table@, key@);
}

/// A reset of the in-memory backend forgets its recorded writes and nothing
/// else.
pub proof fn law_dummy_writes_are_reset(store: &mut DummyStorage)
    requires
        call_ensures(<DummyStorage as Storage>::reset_writes, (store,), ()),
    ensures
        final(store).writes@.len() == 0,
        same_stale(final(store).stale_keys@, old(store).stale_keys@),
        table_view(final(store).store@) == table_view(old(store).store@),
{
    law_values_are_seen_one_by_one(final(store).writes@);
    lemma_same_stale(final(store).stale_keys@, old(store).stale_keys@);
}

/// New stale keys of the in-memory backend take the place of the old ones, and
/// nothing else changes.
pub proof fn law_dummy_stale_keys_are_replaced(store: &mut DummyStorage, keys: Vec<StaleKeyInfo>)
    requires
        call_ensures(<DummyStorage as Storage>::update_stale_keys, (store, keys), ()),
    ensures
        same_stale(final(store).stale_keys@, keys@),
        same_values(final(store).writes@, old(store).writes@),
        table_view(final(store).store@) == table_view(old(store).store@),
{
    lemma_same_stale(final(store).stale_keys@, keys@);
    lemma_same_values(final(store).writes@, old(store).writes@);
}

/// The in-memory backend forgets its stale keys and nothing else.
pub proof fn law_dummy_stale_keys_are_cleared(store: &mut DummyStorage)
    requires
        call_ensures(<DummyStorage as Storage>::clear_stale_keys, (store,), ()),
    ensures
        final(store).stale_keys@.len() == 0,
        same_values(final(store).writes@, old(store).writes@),
        table_view(final(store).store@) == table_view(old(store).store@),
{
    law_stale_keys_are_seen_one_by_one(final(store).stale_keys@);
    lemma_same_values(final(store).writes@, old(store).writes@);
}

/// Through the provider: the recorded writes of the in-memory backend are given
/// out whole and in order.
pub proof fn law_dummy_writes_are_given_out_by_the_provider(
    store: DummyStorage,
    writes: Vec<Value>,
)
    requires
        call_ensures(
            <StorageProvider as Storage>::get_all_writes,
            (&StorageProvider::Dummy(store),),
            writes,
        ),
    ensures
        same_values(writes@, store.writes@),
{
    lemma_same_values(writes@, store.writes@);
}

/// Through the provider: the stale keys of the in-memory backend are given out
/// whole and in order.
pub proof fn law_dummy_stale_keys_are_given_out_by_the_provider(
    store: DummyStorage,
    keys: Vec<StaleKeyInfo>,
)
    requires
        call_ensures(
            <StorageProvider as Storage>::get_stale_keys,
            (&StorageProvider::Dummy(store),),
            keys,
        ),
    ensures
        same_stale(keys@, store.stale_keys@),
{
    lemma_same_stale(keys@, store.stale_keys@);
}

/// Through the provider: a key of the in-memory backend is stale exactly where
/// it is listed under its table.
pub proof fn law_dummy_key_is_stale_where_it_is_listed_by_the_provider(
    store: DummyStorage,
    table: &str,
    key: Vec<u8>,
    stale: bool,
)
    requires
        call_ensures(
            <StorageProvider as Storage>::is_key_stale,
            (&StorageProvider::Dummy(store), table, &key),
            stale,
        ),
    ensures
        stale == stands_in(store.stale_keys@, table@, key@),
{
    lemma_stands_in(store.stale_keys@, table@, key@);
}

/// Through the provider: a reset of the in-memory backend forgets its recorded
/// writes and nothing else.
pub proof fn law_dummy_writes_are_reset_by_the_provider(provider: &mut StorageProvider)
    requires
        call_ensures(<StorageProvider as Storage>::reset_writes, (provider,), ()),
    ensures
        match (*old(provider), *final(provider)) {
            (StorageProvider::Dummy(before), StorageProvider::Dummy(after)) => {
                &&& after.writes@.len() == 0
                &&& same_stale(after.stale_keys@, before.stale_keys@)
                &&& table_view(after.store@) == table_view(before.store@)
            },
            (StorageProvider::Dummy(_), _) => false,
            _ => true,
        },
{
    if let (StorageProvider::Dummy(before), StorageProvider::Dummy(after)) = (
        *old(provider),
        *final(provider),
    ) {
        law_values_are_seen_one_by_one(after.writes@);
        lemma_same_stale(after.stale_keys@, before.stale_keys@);
    }
}

/// Through the provider: new stale keys of the in-memory backend take the place
/// of the old ones, and nothing else changes.
pub proof fn law_dummy_stale_keys_are_replaced_by_the_provider(
    provider: &mut StorageProvider,
    keys: Vec<StaleKeyInfo>,
)
    requires
        call_ensures(<StorageProvider as Storage>::update_stale_keys, (provider, keys), ()),
    ensures
        match (*old(provider), *final(provider)) {
            (StorageProvider::Dummy(before), StorageProvider::Dummy(after)) => {
                &&& same_stale(after.stale_keys@, keys@)
                &&& same_values(after.writes@, before.writes@)
                &&& table_view(after.store@) == table_view(before.store@)
            },
            (StorageProvider::Dummy(_), _) => false,
            _ => true,
        },
{
    if let (StorageProvider::Dummy(before), StorageProvider::Dummy(after)) = (
        *old(provider),
        *final(provider),
    ) {
        lemma_same_stale(after.stale_keys@, keys@);
        lemma_same_values(after.writes@, before.writes@);
    }
}

/// Through the provider: the in-memory backend forgets its stale keys and
/// nothing else.
pub proof fn law_dummy_stale_keys_are_cleared_by_the_provider(provider: &mut StorageProvider)
    requires
        call_ensures(<StorageProvider as Storage>::clear_stale_keys, (provider,), ()),
    ensures
        match (*old(provider), *final(provider)) {
            (StorageProvider::Dummy(before), StorageProvider::Dummy(after)) => {
                &&& after.stale_keys@.len() == 0
                &&& same_values(after.writes@, before.writes@)
                &&& table_view(after.store@) == table_view(before.store@)
            },
            (StorageProvider::Dummy(_), _) => false,
            _ => true,
        },
{
    if let (StorageProvider::Dummy(before), StorageProvider::Dummy(after)) = (
        *old(provider),
        *final(provider),
    ) {
        law_stale_keys_are_seen_one_by_one(after.stale_keys@);
        lemma_same_values(after.writes@, before.writes@);
    }
}

/// A new in-memory backend holds no value, has recorded no write and knows no
/// stale key.
pub proof fn law_a_new_memory_is_empty(store: DummyStorage)
    requires
        call_ensures(DummyStorage::new, (), store),
    ensures
        forall|table: Seq<char>, key: Seq<u8>| (#[trigger] held_under(store, table, key)) is None,
        store.writes@.len() == 0,
        store.stale_keys@.len() == 0,
{
    law_values_are_seen_one_by_one(store.writes@);
    law_stale_keys_are_seen_one_by_one(store.stale_keys@);
    assert forall|table: Seq<char>, key: Seq<u8>| (#[trigger] held_under(
        store,
        table,
        key,
    )) is None by {
        lemma_held_under(store, table, key);
    }
}

/// A clone of the in-memory backend starts with its records and its stale keys.
pub proof fn law_a_clone_of_the_memory_starts_with_its_records(
    store: DummyStorage,
    clone: DummyClone,
)
    requires
        call_ensures(<DummyStorage as Storage>::share, (&store,), clone),
    ensures
        same_values(clone.writes@, store.writes@),
        same_stale(clone.stale_keys@, store.stale_keys@),
{
    lemma_same_values(clone.writes@, store.writes@);
    lemma_same_stale(clone.stale_keys@, store.stale_keys@);
}

/// The in-memory backend and a clone that are exchanged swap their records and
/// their stale keys, and the values stay.
pub proof fn law_exchanged_clones_of_the_memory_swap_their_records(
    store: &mut DummyStorage,
    clone: &mut DummyClone,
)
    requires
        call_ensures(<DummyStorage as Storage>::exchange, (store, clone), ()),
    ensures
        same_contents(*final(store), *old(store)),
        same_values(final(store).writes@, old(clone).writes@),
        same_stale(final(store).stale_keys@, old(clone).stale_keys@),
        same_values(final(clone).writes@, old(store).writes@),
        same_stale(final(clone).stale_keys@, old(store).stale_keys@),
{
    lemma_same_contents(*final(store), *old(store));
    lemma_same_values(final(store).writes@, old(clone).writes@);
    lemma_same_stale(final(store).stale_keys@, old(clone).stale_keys@);
    lemma_same_values(final(clone).writes@, old(store).writes@);
    lemma_same_stale(final(clone).stale_keys@, old(store).stale_keys@);
}

/// A clone of the provider belongs to the backend in use and starts with its
/// records and its stale keys.
pub proof fn law_a_clone_of_the_provider_is_of_its_kind(
    provider: StorageProvider,
    clone: StorageClone,
)
    requires
        call_ensures(<StorageProvider as Storage>::share, (&provider,), clone),
    ensures
        match (provider, clone) {
            (StorageProvider::Dummy(store), StorageClone::Dummy(copy)) => {
                &&& same_values(copy.writes@, store.writes@)
                &&& same_stale(copy.stale_keys@, store.stale_keys@)
            },
            (
                StorageProvider::Dynamo(store),
                StorageClone::Dynamo(copy),
            ) => dynamo_kept(store, copy),
            _ => false,
        },
{
    match (provider, clone) {
        (StorageProvider::Dummy(store), StorageClone::Dummy(copy)) => {
            lemma_same_values(copy.writes@, store.writes@);
            lemma_same_stale(copy.stale_keys@, store.stale_keys@);
        },
        (StorageProvider::Dynamo(store), StorageClone::Dynamo(copy)) => {
            lemma_same_values(copy.all_writes@, store.all_writes@);
            lemma_same_stale(copy.stale_keys@, store.stale_keys@);
        },
        _ => {},
    }
}

/// The provider and a clone of the backend in use swap their records and their
/// stale keys, and the values stay. A clone of another backend changes nothing.
pub proof fn law_exchanged_clones_of_the_provider_swap_their_records(
    provider: &mut StorageProvider,
    clone: &mut StorageClone,
)
    requires
        call_ensures(<StorageProvider as Storage>::exchange, (provider, clone), ()),
    ensures
        match (*old(provider), *old(clone)) {
            (StorageProvider::Dummy(before), StorageClone::Dummy(given)) => match (
                *final(provider),
                *final(clone),
            ) {
                (StorageProvider::Dummy(after), StorageClone::Dummy(taken)) => {
                    &&& same_contents(after, before)
                    &&& same_values(after.writes@, given.writes@)
                    &&& same_stale(after.stale_keys@, given.stale_keys@)
                    &&& same_values(taken.writes@, before.writes@)
                    &&& same_stale(taken.stale_keys@, before.stale_keys@)
                },
                _ => false,
            },
            (StorageProvider::Dynamo(before), StorageClone::Dynamo(given)) => match (
                *final(provider),
                *final(clone),
            ) {
                (StorageProvider::Dynamo(after), StorageClone::Dynamo(taken)) => {
                    &&& same_values(after.all_writes@, given.all_writes@)
                    &&& same_stale(after.stale_keys@, given.stale_keys@)
                    &&& same_values(taken.all_writes@, before.all_writes@)
                    &&& same_stale(taken.stale_keys@, before.stale_keys@)
                },
                _ => false,
            },
            _ => *final(provider) == *old(provider) && *final(clone) == *old(clone),
        },
{
    match (*old(provider), *old(clone), *final(provider), *final(clone)) {
        (
            StorageProvider::Dummy(before),
            StorageClone::Dummy(given),
            StorageProvider::Dummy(after),
            StorageClone::Dummy(taken),
        ) => {
            lemma_same_contents(after, before);
            lemma_same_values(after.writes@, given.writes@);
            lemma_same_stale(after.stale_keys@, given.stale_keys@);
            lemma_same_values(taken.writes@, before.writes@);
            lemma_same_stale(taken.stale_keys@, before.stale_keys@);
        },
        (
            StorageProvider::Dynamo(before),
            StorageClone::Dynamo(given),
            StorageProvider::Dynamo(after),
            StorageClone::Dynamo(taken),
        ) => {
            lemma_same_values(after.all_writes@, given.all_writes@);
            lemma_same_stale(after.stale_keys@, given.stale_keys@);
            lemma_same_values(taken.all_writes@, before.all_writes@);
            lemma_same_stale(taken.stale_keys@, before.stale_keys@);
        },
        _ => {},
    }
}

/// A value that is JSON can be put under every key whose version can be counted
/// up, and a value whose JSON was read can be stored there.
pub proof fn law_what_is_json_can_be_put(
    store: &mut DummyStorage,
    provider: &mut StorageProvider,
    table: String,
    key: Vec<u8>,
    value: Vec<u8>,
    parsed: Value,
)
    requires
        *old(provider) == StorageProvider::Dummy(*old(store)),
        json_parsed(value@) is Some,
        !is_full(*old(store), table@, key@),
    ensures
        call_requires(<DummyStorage as Storage>::put, (store, table, key, value)),
        call_requires(<StorageProvider as Storage>::put, (provider, table, key, value)),
        call_requires(DummyStorage::store_value, (store, table, key, value, parsed)),
{
    lemma_held_under(*old(store), table@, key@);
}

/// The database takes every put and every batch of updates.
pub proof fn law_the_database_takes_everything(
    store: &mut DynamoStore,
    provider: &mut StorageProvider,
    table: String,
    key: Vec<u8>,
    value: Vec<u8>,
    updates: Vec<UpdateItem>,
)
    requires
        *old(provider) == StorageProvider::Dynamo(*old(store)),
    ensures
        call_requires(<DynamoStore as Storage>::put, (store, table, key, value)),
        call_requires(<StorageProvider as Storage>::put, (provider, table, key, value)),
        call_requires(<DynamoStore as Storage>::batch_update, (store, &updates)),
        call_requires(<StorageProvider as Storage>::batch_update, (provider, &updates)),
{
}

/// A reply is read where every one of its items has a key, or where there is
/// none.
pub proof fn law_a_keyed_reply_can_be_read(responses: Option<Vec<(String, Vec<Item>)>>)
    requires
        responses matches Some(r) ==> forall|t: int, i: int|
            0 <= t < r@.len() && 0 <= i < r@[t].1@.len() ==> has_id((#[trigger] r@[t].1@[i])@),
    ensures
        call_requires(DynamoStore::finish_batch_get, (responses,)),
{
    if let Some(r) = responses {
        let views = response_views(r@);
        assert forall|t: int, i: int|
            0 <= t < views.len() && 0 <= i < views[t].1.len() implies item_key(
            #[trigger] views[t].1[i],
        ) is Some by {
            assert(views[t].1 == item_views(r@[t].1@));
            law_items_are_seen_one_by_one(r@[t].1@);
            assert(views[t].1[i] == item_view(r@[t].1@[i]@));
            assert(has_id(r@[t].1@[i]@));
            lemma_item_key(r@[t].1@[i]@);
        }
    }
}

/// The request of a get names its table and its whole key, so that the key that
/// is read from it is the one in the item that an update under it stores.
pub proof fn law_a_get_request_names_its_key(table: Seq<char>, update: UpdateView)
    ensures
        get_request(table, update.key).table_name == table,
        item_key(get_request(table, update.key).key) == Some(update.key),
        item_key(get_request(table, update.key).key) == item_key(put_item(update)),
{
    law_read_after_write(update);
}

} // verus!
