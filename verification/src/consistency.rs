//! The check of an edge execution against the datacenter.

use crate::bytes::{bytes_eq, contains_pair, copy_bytes, pair_view, pair_views};
use crate::dummy::versions_of;
use crate::dynamo::{all_keyed, item_key, response_versions};
use crate::ids::{id_parsed, id_text, uuid_to_string};
use crate::json::{
    add_field, json_from_fields, json_from_text, json_from_values, json_view, json_views, no_fields,
    JsonView,
};
use crate::keyed::LabelMap;
use crate::storage::{
    update_views, version_view, version_views, Contents, ItemView, KeySet, KeySetView, UpdateItem,
    UpdateView, Versions,
};
use serde_json::Value;
use vstd::prelude::*;
use vstd::string::StringExecFns;

verus! {

/// The verdict of the datacenter.
#[derive(Debug)]
pub struct CheckResult {
    pub result: Value,
    pub check_result: bool,
    pub latencies: LabelMap<i64>,
    pub updates: Vec<UpdateItem>,
}

/// What a verdict holds.
pub struct CheckResultView {
    pub result: JsonView,
    pub check_result: bool,
    pub latencies: Map<Seq<char>, i64>,
    pub updates: Seq<UpdateView>,
}

impl View for CheckResult {
    type V = CheckResultView;

    open spec fn view(&self) -> CheckResultView {
        CheckResultView {
            result: json_view(self.result),
            check_result: self.check_result,
            latencies: self.latencies@,
            updates: update_views(self.updates@),
        }
    }
}

/// A key with the version that it has locally.
#[derive(Debug, PartialEq)]
pub struct KeyInfo {
    pub table: String,
    pub key: Vec<u8>,
    pub version: i64,
}

/// What a [`KeyInfo`] holds.
pub struct KeyInfoView {
    pub table: Seq<char>,
    pub key: Seq<u8>,
    pub version: i64,
}

impl View for KeyInfo {
    type V = KeyInfoView;

    open spec fn view(&self) -> KeyInfoView {
        KeyInfoView { table: self.table@, key: self.key@, version: self.version }
    }
}

impl Clone for KeyInfo {
    /// The same key with the same version.
    fn clone(&self) -> (copy: Self)
        ensures
            copy@ == self@,
    {
        KeyInfo {
            table: self.table.clone(),
            key: copy_bytes(self.key.as_slice()),
            version: self.version,
        }
    }
}

/// The views of a list of keys with versions.
pub open spec fn key_info_views(infos: Seq<KeyInfo>) -> Seq<KeyInfoView> {
    infos.map_values(|info: KeyInfo| info@)
}

/// What the datacenter is asked: whether the versions that the edge has of the
/// keys of an execution are the current ones.
#[derive(Debug)]
pub struct ConsistencyCheckBody {
    pub read_keys: Vec<KeyInfo>,
    pub write_keys: Vec<KeyInfo>,
    pub id: String,
    pub args: Value,
    pub function: String,
}

/// What a question for the datacenter holds.
pub struct CheckBodyView {
    pub read_keys: Seq<KeyInfoView>,
    pub write_keys: Seq<KeyInfoView>,
    pub id: Seq<char>,
    pub args: JsonView,
    pub function: Seq<char>,
}

impl View for ConsistencyCheckBody {
    type V = CheckBodyView;

    open spec fn view(&self) -> CheckBodyView {
        CheckBodyView {
            read_keys: key_info_views(self.read_keys@),
            write_keys: key_info_views(self.write_keys@),
            id: self.id@,
            args: json_view(self.args),
            function: self.function@,
        }
    }
}

/// The question that the versions of an execution's keys make.
pub open spec fn check_body(
    versions: Seq<(Seq<char>, Seq<u8>, Option<i64>)>,
    execution_id: u128,
    key_set: KeySetView,
    args: JsonView,
    remote_endpoint: Seq<char>,
) -> CheckBodyView {
    CheckBodyView {
        read_keys: read_infos(versions, key_set.read_set),
        write_keys: write_infos(versions, key_set.read_set),
        id: id_text(execution_id),
        args,
        function: remote_endpoint,
    }
}

/// A list without its repetitions: every pair where it comes first.
pub open spec fn without_repeats(pairs: Seq<(Seq<char>, Seq<u8>)>) -> Seq<(Seq<char>, Seq<u8>)>
    decreases pairs.len(),
{
    if pairs.len() == 0 {
        Seq::empty()
    } else {
        let rest = without_repeats(pairs.drop_last());
        if rest.contains(pairs.last()) {
            rest
        } else {
            rest.push(pairs.last())
        }
    }
}

/// The keys whose versions a check needs: those that are read, then those that
/// are written, each list without repetitions.
pub open spec fn check_pairs(
    reads: Seq<(Seq<char>, Seq<u8>)>,
    writes: Seq<(Seq<char>, Seq<u8>)>,
) -> Seq<(Seq<char>, Seq<u8>)> {
    without_repeats(reads) + without_repeats(writes)
}

/// Whether a key occurs among the pairs, in whichever table.
pub open spec fn has_key(pairs: Seq<(Seq<char>, Seq<u8>)>, key: Seq<u8>) -> bool {
    exists|i: int| 0 <= i < pairs.len() && (#[trigger] pairs[i]).1 == key
}

/// A key with its version, minus one where it has none.
pub open spec fn key_info(entry: (Seq<char>, Seq<u8>, Option<i64>)) -> KeyInfoView {
    KeyInfoView {
        table: entry.0,
        key: entry.1,
        version: match entry.2 {
            Some(version) => version,
            None => -1i64,
        },
    }
}

/// Those of the versions whose key is read, in order.
pub open spec fn read_infos(
    versions: Seq<(Seq<char>, Seq<u8>, Option<i64>)>,
    reads: Seq<(Seq<char>, Seq<u8>)>,
) -> Seq<KeyInfoView>
    decreases versions.len(),
{
    if versions.len() == 0 {
        Seq::empty()
    } else {
        let rest = read_infos(versions.drop_last(), reads);
        if has_key(reads, versions.last().1) {
            rest.push(key_info(versions.last()))
        } else {
            rest
        }
    }
}

/// Those of the versions whose key is not read, in order.
pub open spec fn write_infos(
    versions: Seq<(Seq<char>, Seq<u8>, Option<i64>)>,
    reads: Seq<(Seq<char>, Seq<u8>)>,
) -> Seq<KeyInfoView>
    decreases versions.len(),
{
    if versions.len() == 0 {
        Seq::empty()
    } else {
        let rest = write_infos(versions.drop_last(), reads);
        if has_key(reads, versions.last().1) {
            rest
        } else {
            rest.push(key_info(versions.last()))
        }
    }
}

/// Every version is of a key that is read or written.
pub open spec fn all_known(
    versions: Seq<(Seq<char>, Seq<u8>, Option<i64>)>,
    reads: Seq<(Seq<char>, Seq<u8>)>,
    writes: Seq<(Seq<char>, Seq<u8>)>,
) -> bool {
    forall|i: int|
        0 <= i < versions.len() ==> has_key(reads, (#[trigger] versions[i]).1) || has_key(
            writes,
            versions[i].1,
        )
}

/// A copy of a list without its repetitions: every pair where it comes first.
fn copy_without_repeats(pairs: &Vec<(String, Vec<u8>)>) -> (out: Vec<(String, Vec<u8>)>)
    ensures
        pair_views(out@) == without_repeats(pair_views(pairs@)),
{
    let ghost views = pair_views(pairs@);
    let mut out: Vec<(String, Vec<u8>)> = Vec::new();
    let mut i: usize = 0;
    assert(views.take(0) =~= Seq::empty());
    assert(pair_views(out@) =~= Seq::empty());
    while i < pairs.len()
        invariant
            i <= pairs.len(),
            views == pair_views(pairs@),
            pair_views(out@) == without_repeats(views.take(i as int)),
        decreases pairs.len() - i,
    {
        assert(views.take(i + 1).drop_last() =~= views.take(i as int));
        assert(views.take(i + 1).last() == pair_view(pairs@[i as int]));
        if !contains_pair(&out, pairs[i].0.as_str(), pairs[i].1.as_slice()) {
            let ghost before = out@;
            let pair: (String, Vec<u8>) = (pairs[i].0.clone(), copy_bytes(pairs[i].1.as_slice()));
            out.push(pair);
            assert(pair_views(out@) =~= pair_views(before).push(pair_view(pair)));
        }
        i = i + 1;
    }
    assert(views.take(i as int) =~= views);
    out
}

/// Whether a key occurs among the pairs, in whichever table.
fn key_occurs(pairs: &Vec<(String, Vec<u8>)>, key: &Vec<u8>) -> (found: bool)
    ensures
        found == has_key(pair_views(pairs@), key@),
{
    let ghost views = pair_views(pairs@);
    let mut i: usize = 0;
    while i < pairs.len()
        invariant
            i <= pairs.len(),
            views == pair_views(pairs@),
            forall|j: int| 0 <= j < i ==> (#[trigger] views[j]).1 != key@,
        decreases pairs.len() - i,
    {
        assert(views[i as int] == pair_view(pairs@[i as int]));
        if bytes_eq(pairs[i].1.as_slice(), key.as_slice()) {
            return true;
        }
        i = i + 1;
    }
    false
}

impl KeySet {
    /// The keys whose versions a check of this execution needs.
    pub fn table_key_pairs(&self) -> (pairs: Vec<(String, Vec<u8>)>)
        ensures
            pair_views(pairs@) == check_pairs(
                pair_views(self.read_set@),
                pair_views(self.write_set@),
            ),
    {
        let mut pairs: Vec<(String, Vec<u8>)> = copy_without_repeats(&self.read_set);
        let mut writes: Vec<(String, Vec<u8>)> = copy_without_repeats(&self.write_set);
        let ghost reads_view = pair_views(pairs@);
        let ghost writes_view = pair_views(writes@);
        pairs.append(&mut writes);
        assert(pair_views(pairs@) =~= reads_view + writes_view);
        pairs
    }
}

impl ConsistencyCheckBody {
    /// Whether every version is of a key that the execution reads or writes.
    pub fn versions_known(versions: &Versions, key_set: &KeySet) -> (known: bool)
        ensures
            known == all_known(
                version_views(versions@),
                pair_views(key_set.read_set@),
                pair_views(key_set.write_set@),
            ),
    {
        let ghost views = version_views(versions@);
        let mut i: usize = 0;
        while i < versions.len()
            invariant
                i <= versions.len(),
                views == version_views(versions@),
                forall|j: int|
                    0 <= j < i ==> has_key(
                        pair_views(key_set.read_set@),
                        (#[trigger] views[j]).1,
                    ) || has_key(pair_views(key_set.write_set@), views[j].1),
            decreases versions.len() - i,
        {
            assert(views[i as int] == version_view(versions@[i as int]));
            if !key_occurs(&key_set.read_set, &versions[i].1) && !key_occurs(
                &key_set.write_set,
                &versions[i].1,
            ) {
                return false;
            }
            i = i + 1;
        }
        true
    }

    /// Makes the question for the datacenter out of the versions that the local
    /// backend gave for the keys of an execution. A key that is both read and
    /// written counts as read.
    pub fn create(
        versions: Versions,
        execution_id: u128,
        key_set: KeySet,
        args: Value,
        remote_endpoint: String,
    ) -> (body: Self)
        requires
            all_known(
                version_views(versions@),
                pair_views(key_set.read_set@),
                pair_views(key_set.write_set@),
            ),
        ensures
            body@ == check_body(
                version_views(versions@),
                execution_id,
                key_set@,
                json_view(args),
                remote_endpoint@,
            ),
            id_parsed(body.id@) == Some(execution_id),
    {
        let ghost views = version_views(versions@);
        let ghost reads = pair_views(key_set.read_set@);
        let mut read_keys: Vec<KeyInfo> = Vec::new();
        let mut write_keys: Vec<KeyInfo> = Vec::new();
        let mut i: usize = 0;
        assert(views.take(0) =~= Seq::empty());
        assert(key_info_views(read_keys@) =~= Seq::empty());
        assert(key_info_views(write_keys@) =~= Seq::empty());
        while i < versions.len()
            invariant
                i <= versions.len(),
                views == version_views(versions@),
                reads == pair_views(key_set.read_set@),
                key_info_views(read_keys@) == read_infos(views.take(i as int), reads),
                key_info_views(write_keys@) == write_infos(views.take(i as int), reads),
            decreases versions.len() - i,
        {
            let version: i64 = match versions[i].2 {
                Some(version) => version,
                None => -1,
            };
            let info: KeyInfo = KeyInfo {
                table: versions[i].0.clone(),
                key: copy_bytes(versions[i].1.as_slice()),
                version,
            };
            assert(views.take(i + 1).drop_last() =~= views.take(i as int));
            assert(views.take(i + 1).last() == version_view(versions@[i as int]));
            if key_occurs(&key_set.read_set, &versions[i].1) {
                let ghost before = read_keys@;
                read_keys.push(info);
                assert(key_info_views(read_keys@) =~= key_info_views(before).push(info@));
            } else {
                let ghost before = write_keys@;
                write_keys.push(info);
                assert(key_info_views(write_keys@) =~= key_info_views(before).push(info@));
            }
            i = i + 1;
        }
        assert(views.take(i as int) =~= views);
        ConsistencyCheckBody {
            read_keys,
            write_keys,
            id: uuid_to_string(execution_id),
            args,
            function: remote_endpoint,
        }
    }
}

/// A question for the datacenter and where it goes.
#[derive(Debug)]
pub struct CheckRequest {
    pub url: String,
    pub body: ConsistencyCheckBody,
}

/// The writes of an execution and where they go.
#[derive(Debug, PartialEq)]
pub struct FollowupRequest {
    pub url: String,
    pub body: Value,
}

/// What a [`FollowupRequest`] holds.
pub struct FollowupRequestView {
    pub url: Seq<char>,
    pub body: JsonView,
}

impl View for FollowupRequest {
    type V = FollowupRequestView;

    open spec fn view(&self) -> FollowupRequestView {
        FollowupRequestView { url: self.url@, body: json_view(self.body) }
    }
}

/// The body that reports the writes of an execution.
pub open spec fn followup_json(writes: Seq<JsonView>, id: u128) -> JsonView {
    JsonView::Object(
        map![
            "Updates"@ => JsonView::Array(writes),
            "Id"@ => JsonView::Text(id_text(id)),
        ],
    )
}

/// The client side of the check, without its connection.
#[derive(Debug)]
pub struct ConsistencyClient {
    pub url: String,
}

impl Clone for ConsistencyClient {
    /// A client for the same service.
    fn clone(&self) -> (copy: Self)
        ensures
            copy.url@ == self.url@,
    {
        ConsistencyClient { url: self.url.clone() }
    }
}

impl ConsistencyClient {
    /// A client for the service at a URL.
    pub fn new(url: String) -> (client: Self)
        ensures
            client.url == url,
    {
        ConsistencyClient { url }
    }

    /// Where checks go.
    pub fn check_endpoint(&self) -> (endpoint: String)
        ensures
            endpoint@ == self.url@ + "/check"@,
    {
        self.url.clone().concat("/check")
    }

    /// Where the writes of an execution go.
    pub fn followup_endpoint(&self) -> (endpoint: String)
        ensures
            endpoint@ == self.url@ + "/update"@,
    {
        self.url.clone().concat("/update")
    }

    /// The request that asks for a check.
    pub fn do_check(&self, check_body: ConsistencyCheckBody) -> (request: CheckRequest)
        ensures
            request.url@ == self.url@ + "/check"@,
            request.body == check_body,
    {
        CheckRequest { url: self.check_endpoint(), body: check_body }
    }

    /// The request that reports the writes of an execution.
    pub fn do_followup(&self, id: u128, writes: Vec<Value>) -> (request: FollowupRequest)
        ensures
            request.url@ == self.url@ + "/update"@,
            json_view(request.body) == followup_json(json_views(writes@), id),
    {
        let mut fields: serde_json::Map<String, Value> = no_fields();
        add_field(&mut fields, "Updates", json_from_values(writes));
        add_field(&mut fields, "Id", json_from_text(uuid_to_string(id)));
        FollowupRequest { url: self.followup_endpoint(), body: json_from_fields(fields) }
    }
}

/// Removing repetitions loses no pair and leaves none twice.
pub proof fn law_no_key_is_asked_twice(pairs: Seq<(Seq<char>, Seq<u8>)>)
    ensures
        without_repeats(pairs).no_duplicates(),
        without_repeats(pairs).to_set() == pairs.to_set(),
    decreases pairs.len(),
{
    if pairs.len() > 0 {
        let rest = pairs.drop_last();
        law_no_key_is_asked_twice(rest);
        let out = without_repeats(rest);
        let last = pairs.last();
        assert forall|pair: (Seq<char>, Seq<u8>)| #[trigger]
            without_repeats(pairs).contains(pair) <==> pairs.contains(pair) by {
            assert(out.to_set().contains(pair) == rest.to_set().contains(pair));
            if pairs.contains(pair) {
                let i = choose|i: int| 0 <= i < pairs.len() && pairs[i] == pair;
                if i < rest.len() {
                    assert(rest[i] == pair);
                    assert(out.contains(pair));
                    let j = choose|j: int| 0 <= j < out.len() && out[j] == pair;
                    assert(without_repeats(pairs)[j] == pair);
                } else {
                    if !out.contains(last) {
                        assert(without_repeats(pairs)[out.len() as int] == pair);
                    }
                }
            }
            if without_repeats(pairs).contains(pair) {
                if out.contains(pair) {
                    assert(rest.contains(pair));
                    let i = choose|i: int| 0 <= i < rest.len() && rest[i] == pair;
                    assert(pairs[i] == pair);
                } else {
                    let j = choose|j: int|
                        0 <= j < without_repeats(pairs).len() && without_repeats(pairs)[j] == pair;
                    if j < out.len() {
                        assert(out[j] == pair);
                    }
                    assert(pairs[pairs.len() - 1] == pair);
                }
            }
        }
        assert(without_repeats(pairs).to_set() =~= pairs.to_set());
    } else {
        assert(without_repeats(pairs).to_set() =~= pairs.to_set());
    }
}

/// A version goes to the reads or to the writes, never to both and never
/// nowhere: the two lists together have one entry for each version.
pub proof fn law_every_version_is_classified(
    versions: Seq<(Seq<char>, Seq<u8>, Option<i64>)>,
    reads: Seq<(Seq<char>, Seq<u8>)>,
)
    ensures
        read_infos(versions, reads).len() + write_infos(versions, reads).len() == versions.len(),
        forall|i: int|
            0 <= i < versions.len() ==> if has_key(reads, (#[trigger] versions[i]).1) {
                read_infos(versions, reads).contains(key_info(versions[i]))
            } else {
                write_infos(versions, reads).contains(key_info(versions[i]))
            },
        forall|i: int|
            0 <= i < read_infos(versions, reads).len() ==> has_key(
                reads,
                (#[trigger] read_infos(versions, reads)[i]).key,
            ),
        forall|i: int|
            0 <= i < write_infos(versions, reads).len() ==> !has_key(
                reads,
                (#[trigger] write_infos(versions, reads)[i]).key,
            ),
    decreases versions.len(),
{
    if versions.len() > 0 {
        let rest = versions.drop_last();
        law_every_version_is_classified(rest, reads);
        let last = versions.last();
        assert forall|i: int| 0 <= i < versions.len() implies if has_key(
            reads,
            (#[trigger] versions[i]).1,
        ) {
            read_infos(versions, reads).contains(key_info(versions[i]))
        } else {
            write_infos(versions, reads).contains(key_info(versions[i]))
        } by {
            if i < rest.len() {
                assert(rest[i] == versions[i]);
                if has_key(reads, versions[i].1) {
                    let old_infos = read_infos(rest, reads);
                    let j = choose|j: int|
                        0 <= j < old_infos.len() && old_infos[j] == key_info(rest[i]);
                    assert(read_infos(versions, reads)[j] == key_info(versions[i]));
                } else {
                    let old_infos = write_infos(rest, reads);
                    let j = choose|j: int|
                        0 <= j < old_infos.len() && old_infos[j] == key_info(rest[i]);
                    assert(write_infos(versions, reads)[j] == key_info(versions[i]));
                }
            } else {
                if has_key(reads, last.1) {
                    assert(read_infos(versions, reads)[read_infos(rest, reads).len() as int]
                        == key_info(last));
                } else {
                    assert(write_infos(versions, reads)[write_infos(rest, reads).len() as int]
                        == key_info(last));
                }
            }
        }
    }
}

/// A pair that a check asks for has a key that is read or written.
proof fn lemma_asked_key(
    reads: Seq<(Seq<char>, Seq<u8>)>,
    writes: Seq<(Seq<char>, Seq<u8>)>,
    pair: (Seq<char>, Seq<u8>),
)
    requires
        check_pairs(reads, writes).contains(pair),
    ensures
        has_key(reads, pair.1) || has_key(writes, pair.1),
{
    law_no_key_is_asked_twice(reads);
    law_no_key_is_asked_twice(writes);
    let pairs = check_pairs(reads, writes);
    let i = choose|i: int| 0 <= i < pairs.len() && pairs[i] == pair;
    if i < without_repeats(reads).len() {
        assert(without_repeats(reads)[i] == pair);
        assert(without_repeats(reads).to_set().contains(pair));
        assert(reads.to_set().contains(pair));
        let j = choose|j: int| 0 <= j < reads.len() && reads[j] == pair;
        assert(reads[j].1 == pair.1);
    } else {
        assert(without_repeats(writes)[i - without_repeats(reads).len()] == pair);
        assert(without_repeats(writes).to_set().contains(pair));
        assert(writes.to_set().contains(pair));
        let j = choose|j: int| 0 <= j < writes.len() && writes[j] == pair;
        assert(writes[j].1 == pair.1);
    }
}

/// The answer of an in-memory backend to the question for the keys of an
/// execution is about these keys only, so that it can always be classified.
pub proof fn law_asked_keys_are_known(
    store: Contents,
    reads: Seq<(Seq<char>, Seq<u8>)>,
    writes: Seq<(Seq<char>, Seq<u8>)>,
)
    ensures
        all_known(versions_of(store, check_pairs(reads, writes)), reads, writes),
{
    let pairs = check_pairs(reads, writes);
    let versions = versions_of(store, pairs);
    assert forall|i: int| 0 <= i < versions.len() implies has_key(
        reads,
        (#[trigger] versions[i]).1,
    ) || has_key(writes, versions[i].1) by {
        assert(pairs.contains(pairs[i]));
        lemma_asked_key(reads, writes, pairs[i]);
    }
}

/// An answer of the database that is about requested keys only can be
/// classified too.
pub proof fn law_requested_items_are_known(
    responses: Seq<(Seq<char>, Seq<ItemView>)>,
    reads: Seq<(Seq<char>, Seq<u8>)>,
    writes: Seq<(Seq<char>, Seq<u8>)>,
)
    requires
        all_keyed(responses),
        forall|t: int, i: int|
            0 <= t < responses.len() && 0 <= i < responses[t].1.len() ==> check_pairs(
                reads,
                writes,
            ).contains((responses[t].0, item_key(#[trigger] responses[t].1[i]).unwrap())),
    ensures
        all_known(response_versions(responses), reads, writes),
    decreases responses.len(),
{
    let versions = response_versions(responses);
    if responses.len() > 0 {
        let rest = responses.drop_last();
        let last = responses.len() - 1;
        assert forall|t: int, i: int|
            0 <= t < rest.len() && 0 <= i < rest[t].1.len() implies check_pairs(
            reads,
            writes,
        ).contains((rest[t].0, item_key(#[trigger] rest[t].1[i]).unwrap())) by {
            assert(rest[t].1[i] == responses[t].1[i]);
        }
        assert(all_keyed(rest)) by {
            assert forall|t: int, i: int|
                0 <= t < rest.len() && 0 <= i < rest[t].1.len() implies item_key(
                #[trigger] rest[t].1[i],
            ) is Some by {
                assert(item_key(responses[t].1[i]) is Some);
            }
        }
        law_requested_items_are_known(rest, reads, writes);
        let before = response_versions(rest);
        assert forall|k: int| 0 <= k < versions.len() implies has_key(
            reads,
            (#[trigger] versions[k]).1,
        ) || has_key(writes, versions[k].1) by {
            if k < before.len() {
                assert(before[k] == versions[k]);
            } else {
                let i = k - before.len();
                let item = responses[last].1[i];
                assert(versions[k].1 == item_key(item).unwrap());
                lemma_asked_key(
                    reads,
                    writes,
                    (responses[last].0, item_key(responses[last].1[i]).unwrap()),
                );
            }
        }
    }
}

} // verus!
