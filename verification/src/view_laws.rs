//! What the views of lists and values show, and what the basic operations on
//! them come to.

use crate::bytes::{bytes_eq, contains_pair, copy_bytes, pair_views, text_eq, text_views};
use crate::consistency::{key_info_views, KeyInfo};
use crate::json::{bytes_json, copy_values, json_member, json_view, json_views, JsonView};
use crate::keyed::{label_copy, label_get, KeyEq, KeyedMap, LabelMap};
use crate::storage::{
    base64_decoded, deserialize_bytes, item_view, item_views, make_write_record, stale_views,
    update_views, version_views, write_record, Attribute, AttributeView, InvalidBase64, Item,
    StaleKeyInfo, UpdateItem,
};
use serde_json::Value;
use vstd::prelude::*;

verus! {

/// A JSON object has the fields with the given names and no other.
pub open spec fn has_fields(json: JsonView, names: Set<Seq<char>>) -> bool {
    json matches JsonView::Object(fields) && fields.dom() == names
}

/// A JSON array holds the bytes of a byte string as integers, in order.
pub open spec fn is_byte_array(json: JsonView, bytes: Seq<u8>) -> bool {
    json matches JsonView::Array(items) && items.len() == bytes.len() && forall|i: int|
        0 <= i < bytes.len() ==> (#[trigger] items[i]) == JsonView::Integer(bytes[i] as int)
}

/// The record of a write names its table, its key and what was written, and
/// nothing else.
pub open spec fn records_write(
    record: JsonView,
    table: Seq<char>,
    key: Seq<u8>,
    value: JsonView,
) -> bool {
    &&& has_fields(record, set!["key"@, "value"@, "table"@])
    &&& json_member(record, "table"@) == JsonView::Text(table)
    &&& is_byte_array(json_member(record, "key"@), key)
    &&& json_member(record, "value"@) == value
}

/// Two lists hold the same JSON values in the same order.
pub open spec fn same_values(a: Seq<Value>, b: Seq<Value>) -> bool {
    a.len() == b.len() && forall|i: int|
        0 <= i < a.len() ==> json_view(#[trigger] a[i]) == json_view(b[i])
}

/// Two lists hold the same updates in the same order.
pub open spec fn same_updates(a: Seq<UpdateItem>, b: Seq<UpdateItem>) -> bool {
    a.len() == b.len() && forall|i: int|
        #![trigger a[i]]
        #![trigger b[i]]
        0 <= i < a.len() ==> {
            &&& a[i].table@ == b[i].table@
            &&& a[i].key@ == b[i].key@
            &&& a[i].value@ == b[i].value@
            &&& a[i].version == b[i].version
        }
}

/// Two lists hold the same stale keys in the same order.
pub open spec fn same_stale(a: Seq<StaleKeyInfo>, b: Seq<StaleKeyInfo>) -> bool {
    a.len() == b.len() && forall|i: int|
        #![trigger a[i]]
        #![trigger b[i]]
        0 <= i < a.len() ==> {
            &&& a[i].table@ == b[i].table@
            &&& a[i].key@ == b[i].key@
            &&& a[i].is_value_replicated == b[i].is_value_replicated
        }
}

/// Lists with the same views hold the same JSON values.
pub proof fn lemma_same_values(a: Seq<Value>, b: Seq<Value>)
    requires
        json_views(a) == json_views(b),
    ensures
        same_values(a, b),
{
    assert(json_views(a).len() == a.len());
    assert(json_views(b).len() == b.len());
    assert forall|i: int| 0 <= i < a.len() implies json_view(#[trigger] a[i]) == json_view(
        b[i],
    ) by {
        assert(json_views(a)[i] == json_view(a[i]));
        assert(json_views(b)[i] == json_view(b[i]));
    }
}

/// Lists with the same views hold the same updates.
pub proof fn lemma_same_updates(a: Seq<UpdateItem>, b: Seq<UpdateItem>)
    requires
        update_views(a) == update_views(b),
    ensures
        same_updates(a, b),
{
    assert(update_views(a).len() == a.len());
    assert(update_views(b).len() == b.len());
    assert forall|i: int|
        #![trigger a[i]]
        #![trigger b[i]]
        0 <= i < a.len() implies a[i]@ == b[i]@ by {
        assert(update_views(a)[i] == a[i]@);
        assert(update_views(b)[i] == b[i]@);
    }
}

/// Lists with the same views hold the same stale keys.
pub proof fn lemma_same_stale(a: Seq<StaleKeyInfo>, b: Seq<StaleKeyInfo>)
    requires
        stale_views(a) == stale_views(b),
    ensures
        same_stale(a, b),
{
    assert(stale_views(a).len() == a.len());
    assert(stale_views(b).len() == b.len());
    assert forall|i: int|
        #![trigger a[i]]
        #![trigger b[i]]
        0 <= i < a.len() implies a[i]@ == b[i]@ by {
        assert(stale_views(a)[i] == a[i]@);
        assert(stale_views(b)[i] == b[i]@);
    }
}

/// The view of a list of JSON values shows each of them, in order.
pub proof fn law_values_are_seen_one_by_one(values: Seq<Value>)
    ensures
        json_views(values).len() == values.len(),
        forall|i: int|
            0 <= i < values.len() ==> (#[trigger] json_views(values)[i]) == json_view(values[i]),
{
}

/// The view of a list of keys shows each of them whole with its table, in
/// order.
pub proof fn law_pairs_are_seen_one_by_one(pairs: Seq<(String, Vec<u8>)>)
    ensures
        pair_views(pairs).len() == pairs.len(),
        forall|i: int|
            0 <= i < pairs.len() ==> (#[trigger] pair_views(pairs)[i]) == (
                pairs[i].0@,
                pairs[i].1@,
            ),
{
}

/// The view of a list of texts shows each of them whole, in order.
pub proof fn law_texts_are_seen_one_by_one(texts: Seq<String>)
    ensures
        text_views(texts).len() == texts.len(),
        forall|i: int| 0 <= i < texts.len() ==> (#[trigger] text_views(texts)[i]) == texts[i]@,
{
}

/// The view of a list of versions shows each of them with its table and its
/// whole key, in order.
pub proof fn law_versions_are_seen_one_by_one(entries: Seq<(String, Vec<u8>, Option<i64>)>)
    ensures
        version_views(entries).len() == entries.len(),
        forall|i: int|
            0 <= i < entries.len() ==> (#[trigger] version_views(entries)[i]) == (
                entries[i].0@,
                entries[i].1@,
                entries[i].2,
            ),
{
}

/// The view of a list of updates shows all of each of them, in order.
pub proof fn law_updates_are_seen_one_by_one(items: Seq<UpdateItem>)
    ensures
        update_views(items).len() == items.len(),
        forall|i: int|
            0 <= i < items.len() ==> {
                &&& (#[trigger] update_views(items)[i]).table == items[i].table@
                &&& update_views(items)[i].key == items[i].key@
                &&& update_views(items)[i].value == items[i].value@
                &&& update_views(items)[i].version == items[i].version
            },
{
}

/// The view of a list of stale keys shows all of each of them, in order.
pub proof fn law_stale_keys_are_seen_one_by_one(keys: Seq<StaleKeyInfo>)
    ensures
        stale_views(keys).len() == keys.len(),
        forall|i: int|
            0 <= i < keys.len() ==> {
                &&& (#[trigger] stale_views(keys)[i]).table == keys[i].table@
                &&& stale_views(keys)[i].key == keys[i].key@
                &&& stale_views(keys)[i].is_value_replicated == keys[i].is_value_replicated
            },
{
}

/// The view of a list of keys with versions shows all of each of them, in
/// order.
pub proof fn law_key_infos_are_seen_one_by_one(infos: Seq<KeyInfo>)
    ensures
        key_info_views(infos).len() == infos.len(),
        forall|i: int|
            0 <= i < infos.len() ==> {
                &&& (#[trigger] key_info_views(infos)[i]).table == infos[i].table@
                &&& key_info_views(infos)[i].key == infos[i].key@
                &&& key_info_views(infos)[i].version == infos[i].version
            },
{
}

/// An attribute holds what its view shows.
pub open spec fn attribute_holds(attribute: Attribute, view: AttributeView) -> bool {
    match attribute {
        Attribute::N(text) => view == AttributeView::N(text@),
        Attribute::B(bytes) => view == AttributeView::B(bytes@),
        Attribute::Other => view == AttributeView::Other,
    }
}

/// The view of an item shows all of its attributes, each whole under its name.
pub proof fn law_items_are_seen_attribute_by_attribute(item: Map<Seq<char>, Attribute>)
    ensures
        item_view(item).dom() == item.dom(),
        forall|name: Seq<char>| #[trigger]
            item.contains_key(name) ==> attribute_holds(item[name], item_view(item)[name]),
{
    assert(item_view(item).dom() =~= item.dom());
}

/// The view of a list of items shows each of them, in order.
pub proof fn law_items_are_seen_one_by_one(items: Seq<Item>)
    ensures
        item_views(items).len() == items.len(),
        forall|i: int|
            0 <= i < items.len() ==> (#[trigger] item_views(items)[i]) == item_view(items[i]@),
{
}

/// A byte string in JSON is the array of its bytes.
pub proof fn law_bytes_are_an_array_of_integers(bytes: Seq<u8>)
    ensures
        is_byte_array(bytes_json(bytes), bytes),
{
}

/// A member of a value is its field of that name. An object without such a
/// field has null there, and so has everything that is no object.
pub proof fn law_a_member_is_the_field_of_its_name(json: JsonView, name: Seq<char>)
    ensures
        match json {
            JsonView::Object(fields) => json_member(json, name) == if fields.contains_key(name) {
                fields[name]
            } else {
                JsonView::Null
            },
            _ => json_member(json, name) == JsonView::Null,
        },
{
}

/// The record of a write names what was written.
pub proof fn lemma_records_write(table: Seq<char>, key: Seq<u8>, value: JsonView)
    ensures
        records_write(write_record(table, key, value), table, key, value),
{
    reveal_strlit("key");
    reveal_strlit("value");
    reveal_strlit("table");
    assert("key"@.len() == 3);
    assert("value"@.len() == 5);
    assert("table"@.len() == 5);
    assert("value"@[0] == 'v');
    assert("table"@[0] == 't');
    let fields = map![
        "key"@ => bytes_json(key),
        "value"@ => value,
        "table"@ => JsonView::Text(table),
    ];
    assert(fields.dom() =~= set!["key"@, "value"@, "table"@]);
}

/// The record that is made of a write names its table, its whole key and what
/// was written, and nothing else.
pub proof fn law_a_write_is_recorded_whole(table: &str, key: Vec<u8>, value: Value, record: Value)
    requires
        call_ensures(make_write_record, (table, &key, value), record),
    ensures
        records_write(json_view(record), table@, key@, json_view(value)),
{
    lemma_records_write(table@, key@, json_view(value));
}

/// A copy of a list of JSON values holds each of them, in order.
pub proof fn law_a_copy_holds_every_value(values: Vec<Value>, copy: Vec<Value>)
    requires
        call_ensures(copy_values, (&values,), copy),
    ensures
        same_values(copy@, values@),
{
    lemma_same_values(copy@, values@);
}

/// A byte string is read from the base64 text that stands for it, and a text
/// that is no base64 is refused.
pub proof fn law_bytes_are_read_from_base64(text: String, r: Result<Vec<u8>, InvalidBase64>)
    requires
        call_ensures(deserialize_bytes, (text,), r),
    ensures
        match base64_decoded(text@) {
            Some(decoded) => r matches Ok(bytes) && bytes@ == decoded,
            None => r is Err,
        },
{
}

/// Byte strings are the same where they are equally long and hold the same
/// bytes.
pub proof fn law_equal_bytes_are_equal_one_by_one(a: &[u8], b: &[u8], same: bool)
    requires
        call_ensures(bytes_eq, (a, b), same),
    ensures
        same <==> a@.len() == b@.len()
            && forall|i: int| 0 <= i < a@.len() ==> #[trigger] a@[i] == b@[i],
{
    if a@.len() == b@.len() && forall|i: int| 0 <= i < a@.len() ==> #[trigger] a@[i] == b@[i] {
        assert(a@ =~= b@);
    }
}

/// Texts are the same where they are equally long and hold the same characters.
pub proof fn law_equal_texts_are_equal_one_by_one(a: &str, b: &str, same: bool)
    requires
        call_ensures(text_eq, (a, b), same),
    ensures
        same <==> a@.len() == b@.len()
            && forall|i: int| 0 <= i < a@.len() ==> #[trigger] a@[i] == b@[i],
{
    if a@.len() == b@.len() && forall|i: int| 0 <= i < a@.len() ==> #[trigger] a@[i] == b@[i] {
        assert(a@ =~= b@);
    }
}

/// A copy of a byte string holds the same bytes.
pub proof fn law_copied_bytes_are_the_same(source: &[u8], copy: Vec<u8>)
    requires
        call_ensures(copy_bytes, (source,), copy),
    ensures
        copy@ == source@,
{
}

/// A key with its table is found exactly where both are in one place of the
/// list.
pub proof fn law_a_pair_is_found_where_it_stands(
    pairs: Vec<(String, Vec<u8>)>,
    table: &str,
    key: &[u8],
    found: bool,
)
    requires
        call_ensures(contains_pair, (&pairs, table, key), found),
    ensures
        found <==> exists|i: int|
            0 <= i < pairs@.len() && (#[trigger] pairs@[i]).0@ == table@ && pairs@[i].1@ == key@,
{
    let views = pair_views(pairs@);
    if found {
        let i = choose|i: int| 0 <= i < views.len() && views[i] == (table@, key@);
        assert(pairs@[i].0@ == table@);
    }
    if exists|i: int|
        0 <= i < pairs@.len() && (#[trigger] pairs@[i]).0@ == table@ && pairs@[i].1@ == key@ {
        let i = choose|i: int|
            0 <= i < pairs@.len() && (#[trigger] pairs@[i]).0@ == table@ && pairs@[i].1@ == key@;
        assert(views[i] == (table@, key@));
    }
}

/// A map that a value was put into holds it under its key and is otherwise as
/// it was.
pub proof fn law_a_map_holds_what_was_put<K: KeyEq, V>(map: &mut KeyedMap<K, V>, key: K, value: V)
    requires
        call_ensures(KeyedMap::<K, V>::insert, (map, key, value), ()),
    ensures
        final(map)@.contains_key(key@) && final(map)@[key@] == value,
        forall|other: K::V|
            other != key@ ==> {
                &&& (#[trigger] final(map)@.contains_key(other)) == old(map)@.contains_key(other)
                &&& final(map)@[other] == old(map)@[other]
            },
{
}

/// A map gives the value under a key, and nothing where there is none.
pub proof fn law_a_map_gives_what_it_holds<K: KeyEq, V>(
    map: KeyedMap<K, V>,
    key: K,
    value: Option<&V>,
)
    requires
        call_ensures(KeyedMap::<K, V>::get, (&map, &key), value),
    ensures
        match value {
            Some(v) => map@.contains_key(key@) && *v == map@[key@],
            None => !map@.contains_key(key@),
        },
{
}

/// A map gives the value under a label, and nothing where there is none.
pub proof fn law_a_label_gives_what_is_under_it<V>(
    map: LabelMap<V>,
    label: &str,
    value: Option<&V>,
)
    requires
        call_ensures(label_get::<V>, (&map, label), value),
    ensures
        match value {
            Some(v) => map@.contains_key(label@) && *v == map@[label@],
            None => !map@.contains_key(label@),
        },
{
}

/// A copy of a map has the same labels and values.
pub proof fn law_a_copied_map_is_the_same<V: Copy>(map: LabelMap<V>, copy: LabelMap<V>)
    requires
        call_ensures(label_copy::<V>, (&map,), copy),
    ensures
        copy@.dom() == map@.dom(),
        forall|label: Seq<char>| #[trigger]
            map@.contains_key(label) ==> copy@[label] == map@[label],
{
}

} // verus!
