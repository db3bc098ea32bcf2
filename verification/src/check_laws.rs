//! What a check asks and what a follow-up reports, from what goes in to what
//! comes out.

use crate::bytes::pair_views;
use crate::consistency::{
    all_known, has_key, key_info_views, read_infos, write_infos, CheckRequest,
    ConsistencyCheckBody, ConsistencyClient, FollowupRequest, KeyInfo, KeyInfoView,
};
use crate::followup::{
    content_json, report, run_followup_task, send_followups, ExtensionEvent, ExtensionStep,
    FollowupContent, FollowupExtension, FollowupView, TaskEvent, TaskStep,
};
use crate::handler::{EdgeAction, EdgeEvent, EdgePhase, EdgeRequest, RadicalHandler};
use crate::handler_laws::{asks_once, lemma_asks_once};
use crate::ids::id_text;
use crate::json::{json_member, json_view, json_views, JsonView};
use crate::storage::{version_views, KeySet, Versions};
use crate::view_laws::{
    has_fields, law_key_infos_are_seen_one_by_one, law_pairs_are_seen_one_by_one,
    law_values_are_seen_one_by_one, law_versions_are_seen_one_by_one,
};
use serde_json::Value;
use vstd::prelude::*;

verus! {

/// A key stands somewhere in a list, in whichever table.
pub open spec fn mentions(pairs: Seq<(String, Vec<u8>)>, key: Seq<u8>) -> bool {
    exists|i: int| 0 <= i < pairs.len() && (#[trigger] pairs[i]).1@ == key
}

/// A version as the datacenter is told it: table, key and version, minus one
/// where the key is unknown.
pub open spec fn told(entry: (String, Vec<u8>, Option<i64>)) -> (Seq<char>, Seq<u8>, i64) {
    (
        entry.0@,
        entry.1@,
        match entry.2 {
            Some(version) => version,
            None => -1i64,
        },
    )
}

/// The versions of keys that are read, or of those that are not, in order.
pub open spec fn told_of(
    versions: Seq<(String, Vec<u8>, Option<i64>)>,
    reads: Seq<(String, Vec<u8>)>,
    read: bool,
) -> Seq<(Seq<char>, Seq<u8>, i64)> {
    versions.filter_map(
        |entry: (String, Vec<u8>, Option<i64>)|
            if mentions(reads, entry.1@) == read {
                Some(told(entry))
            } else {
                None
            },
    )
}

/// What a list of keys with versions tells.
pub open spec fn infos_told(infos: Seq<KeyInfo>) -> Seq<(Seq<char>, Seq<u8>, i64)> {
    infos.map_values(|info: KeyInfo| (info.table@, info.key@, info.version))
}

/// A key stands in a list where its view shows it.
proof fn lemma_mentions(pairs: Seq<(String, Vec<u8>)>, key: Seq<u8>)
    ensures
        has_key(pair_views(pairs), key) == mentions(pairs, key),
{
    law_pairs_are_seen_one_by_one(pairs);
    let views = pair_views(pairs);
    if has_key(views, key) {
        let i = choose|i: int| 0 <= i < views.len() && (#[trigger] views[i]).1 == key;
        assert(pairs[i].1@ == key);
    }
    if mentions(pairs, key) {
        let i = choose|i: int| 0 <= i < pairs.len() && (#[trigger] pairs[i]).1@ == key;
        assert(views[i].1 == key);
    }
}

/// The classified versions are those that are told.
proof fn lemma_told_of(
    versions: Seq<(String, Vec<u8>, Option<i64>)>,
    reads: Seq<(String, Vec<u8>)>,
)
    ensures
        read_infos(version_views(versions), pair_views(reads)).map_values(
            |info: KeyInfoView| (info.table, info.key, info.version),
        ) == told_of(versions, reads, true),
        write_infos(version_views(versions), pair_views(reads)).map_values(
            |info: KeyInfoView| (info.table, info.key, info.version),
        ) == told_of(versions, reads, false),
    decreases versions.len(),
{
    let views = version_views(versions);
    let tell = |info: KeyInfoView| (info.table, info.key, info.version);
    law_versions_are_seen_one_by_one(versions);
    if versions.len() > 0 {
        let last = versions.last();
        lemma_told_of(versions.drop_last(), reads);
        lemma_mentions(reads, last.1@);
        assert(views.drop_last() =~= version_views(versions.drop_last()));
        assert(views.last() == (last.0@, last.1@, last.2));
        assert(read_infos(views, pair_views(reads)).map_values(tell) =~= told_of(
            versions,
            reads,
            true,
        ));
        assert(write_infos(views, pair_views(reads)).map_values(tell) =~= told_of(
            versions,
            reads,
            false,
        ));
    } else {
        assert(read_infos(views, pair_views(reads)).map_values(tell) =~= told_of(
            versions,
            reads,
            true,
        ));
        assert(write_infos(views, pair_views(reads)).map_values(tell) =~= told_of(
            versions,
            reads,
            false,
        ));
    }
}

/// A list of keys with versions tells what its view shows.
proof fn lemma_infos_told(infos: Seq<KeyInfo>)
    ensures
        key_info_views(infos).map_values(
            |info: KeyInfoView| (info.table, info.key, info.version),
        ) == infos_told(infos),
{
    law_key_infos_are_seen_one_by_one(infos);
    assert(key_info_views(infos).map_values(
        |info: KeyInfoView| (info.table, info.key, info.version),
    ) =~= infos_told(infos));
}

/// A check asks for each key that is read once and then for each that is
/// written once, in the order in which they come first, and for no other.
pub proof fn law_a_check_asks_for_every_key_once(key_set: KeySet, pairs: Vec<(String, Vec<u8>)>)
    requires
        call_ensures(KeySet::table_key_pairs, (&key_set,), pairs),
    ensures
        asks_once(
            pair_views(pairs@),
            pair_views(key_set.read_set@),
            pair_views(key_set.write_set@),
        ),
{
    lemma_asks_once(pair_views(key_set.read_set@), pair_views(key_set.write_set@));
}

/// Versions are known exactly where each of their keys is read or written.
pub proof fn law_versions_are_known_where_their_keys_are(
    versions: Versions,
    key_set: KeySet,
    known: bool,
)
    requires
        call_ensures(ConsistencyCheckBody::versions_known, (&versions, &key_set), known),
    ensures
        known <==> forall|i: int|
            0 <= i < versions@.len() ==> mentions(key_set.read_set@, (#[trigger] versions@[i]).1@)
                || mentions(key_set.write_set@, versions@[i].1@),
{
    let views = version_views(versions@);
    law_versions_are_seen_one_by_one(versions@);
    assert forall|i: int| 0 <= i < versions@.len() implies (#[trigger] views[i]).1
        == versions@[i].1@ && has_key(pair_views(key_set.read_set@), views[i].1) == mentions(
        key_set.read_set@,
        versions@[i].1@,
    ) && has_key(pair_views(key_set.write_set@), views[i].1) == mentions(
        key_set.write_set@,
        versions@[i].1@,
    ) by {
        lemma_mentions(key_set.read_set@, versions@[i].1@);
        lemma_mentions(key_set.write_set@, versions@[i].1@);
    }
    if known {
        assert forall|i: int| 0 <= i < versions@.len() implies mentions(
            key_set.read_set@,
            (#[trigger] versions@[i]).1@,
        ) || mentions(key_set.write_set@, versions@[i].1@) by {
            assert(views[i].1 == versions@[i].1@);
        }
    } else {
        let i = choose|i: int|
            0 <= i < views.len() && !(has_key(
                pair_views(key_set.read_set@),
                (#[trigger] views[i]).1,
            ) || has_key(pair_views(key_set.write_set@), views[i].1));
        assert(!mentions(key_set.read_set@, versions@[i].1@));
    }
}

/// A check tells the datacenter the version of every key, in order, under the
/// keys that are read or under the others, minus one for an unknown key. It
/// carries the arguments, the text of the identifier and the address of the
/// function.
pub proof fn law_a_check_tells_every_version(
    versions: Versions,
    execution_id: u128,
    key_set: KeySet,
    args: Value,
    remote_endpoint: String,
    body: ConsistencyCheckBody,
)
    requires
        call_ensures(
            ConsistencyCheckBody::create,
            (versions, execution_id, key_set, args, remote_endpoint),
            body,
        ),
    ensures
        infos_told(body.read_keys@) == told_of(versions@, key_set.read_set@, true),
        infos_told(body.write_keys@) == told_of(versions@, key_set.read_set@, false),
        body.id@ == id_text(execution_id),
        json_view(body.args) == json_view(args),
        body.function@ == remote_endpoint@,
{
    lemma_told_of(versions@, key_set.read_set@);
    lemma_infos_told(body.read_keys@);
    lemma_infos_told(body.write_keys@);
}

/// The check that an execution at the edge starts tells every version that came
/// in, in order, under the keys that are read or under the others.
pub proof fn law_an_execution_tells_every_version(
    handler: &mut RadicalHandler,
    request: EdgeRequest,
    key_set: KeySet,
    versions: Versions,
    body: u128,
    out: (EdgePhase, EdgeAction),
)
    requires
        call_ensures(
            RadicalHandler::edge_handler,
            (
                handler,
                &request,
                EdgePhase::Versions(key_set),
                EdgeEvent::Versions { versions, body },
            ),
            out,
        ),
    ensures
        out.1 matches EdgeAction::SpawnCheck(check) && {
            &&& infos_told(check.body.read_keys@) == told_of(versions@, key_set.read_set@, true)
            &&& infos_told(check.body.write_keys@) == told_of(versions@, key_set.read_set@, false)
        },
{
    if let EdgeAction::SpawnCheck(check) = out.1 {
        lemma_told_of(versions@, key_set.read_set@);
        lemma_infos_told(check.body.read_keys@);
        lemma_infos_told(check.body.write_keys@);
    }
}

/// Every version is of a key that is read or written.
pub open spec fn all_mentioned(
    versions: Seq<(String, Vec<u8>, Option<i64>)>,
    key_set: KeySet,
) -> bool {
    forall|i: int|
        0 <= i < versions.len() ==> mentions(key_set.read_set@, (#[trigger] versions[i]).1@)
            || mentions(key_set.write_set@, versions[i].1@)
}

/// Versions of keys that are read or written are known.
proof fn lemma_all_mentioned(versions: Seq<(String, Vec<u8>, Option<i64>)>, key_set: KeySet)
    requires
        all_mentioned(versions, key_set),
    ensures
        all_known(
            version_views(versions),
            pair_views(key_set.read_set@),
            pair_views(key_set.write_set@),
        ),
{
    let views = version_views(versions);
    law_versions_are_seen_one_by_one(versions);
    assert forall|i: int| 0 <= i < views.len() implies has_key(
        pair_views(key_set.read_set@),
        (#[trigger] views[i]).1,
    ) || has_key(pair_views(key_set.write_set@), views[i].1) by {
        assert(views[i].1 == versions[i].1@);
        lemma_mentions(key_set.read_set@, versions[i].1@);
        lemma_mentions(key_set.write_set@, versions[i].1@);
    }
}

/// An execution at the edge takes every event, and of the versions that it
/// waits for all that are of keys that it reads or writes.
pub proof fn law_known_versions_can_come_in(
    handler: &mut RadicalHandler,
    request: EdgeRequest,
    phase: EdgePhase,
    event: EdgeEvent,
)
    requires
        (phase is Versions && event is Versions) ==> all_mentioned(
            event->Versions_versions@,
            phase->Versions_0,
        ),
    ensures
        call_requires(RadicalHandler::edge_handler, (handler, &request, phase, event)),
{
    if phase is Versions && event is Versions {
        lemma_all_mentioned(event->Versions_versions@, phase->Versions_0);
    }
}

/// A check can be made of all versions of keys that are read or written.
pub proof fn law_known_versions_can_be_told(
    versions: Versions,
    execution_id: u128,
    key_set: KeySet,
    args: Value,
    remote_endpoint: String,
)
    requires
        all_mentioned(versions@, key_set),
    ensures
        call_requires(
            ConsistencyCheckBody::create,
            (versions, execution_id, key_set, args, remote_endpoint),
        ),
{
    lemma_all_mentioned(versions@, key_set);
}

/// A copy of a key with its version is the same.
pub proof fn law_a_copied_key_info_is_the_same(info: KeyInfo, copy: KeyInfo)
    requires
        call_ensures(<KeyInfo as Clone>::clone, (&info,), copy),
    ensures
        copy.table@ == info.table@,
        copy.key@ == info.key@,
        copy.version == info.version,
{
}

/// A client has the URL that it is made with.
pub proof fn law_a_client_keeps_its_url(url: String, client: ConsistencyClient)
    requires
        call_ensures(ConsistencyClient::new, (url,), client),
    ensures
        client.url@ == url@,
{
}

/// A copy of a client has its URL.
pub proof fn law_a_copied_client_has_the_same_url(
    client: ConsistencyClient,
    copy: ConsistencyClient,
)
    requires
        call_ensures(<ConsistencyClient as Clone>::clone, (&client,), copy),
    ensures
        copy.url@ == client.url@,
{
}

/// Checks go to the check endpoint of the service.
pub proof fn law_checks_go_to_the_check_endpoint(client: ConsistencyClient, endpoint: String)
    requires
        call_ensures(ConsistencyClient::check_endpoint, (&client,), endpoint),
    ensures
        endpoint@ == client.url@ + "/check"@,
{
}

/// The writes of an execution go to the update endpoint of the service.
pub proof fn law_writes_go_to_the_update_endpoint(client: ConsistencyClient, endpoint: String)
    requires
        call_ensures(ConsistencyClient::followup_endpoint, (&client,), endpoint),
    ensures
        endpoint@ == client.url@ + "/update"@,
{
}

/// A check is sent as it is to the check endpoint of the service.
pub proof fn law_a_check_is_sent_as_it_is(
    client: ConsistencyClient,
    body: ConsistencyCheckBody,
    request: CheckRequest,
)
    requires
        call_ensures(ConsistencyClient::do_check, (&client, body), request),
    ensures
        request.url@ == client.url@ + "/check"@,
        request.body == body,
{
}

/// A body holds the given writes in order and the text of an identifier, under
/// the given names, and nothing else.
pub open spec fn reports(
    body: JsonView,
    updates_name: Seq<char>,
    id_name: Seq<char>,
    updates: Seq<Value>,
    id: u128,
) -> bool {
    &&& has_fields(body, set![updates_name, id_name])
    &&& json_member(body, updates_name) matches JsonView::Array(items) && items.len()
        == updates.len() && forall|i: int|
        0 <= i < updates.len() ==> (#[trigger] items[i]) == json_view(updates[i])
    &&& json_member(body, id_name) == JsonView::Text(id_text(id))
}

/// The body of a follow-up reports all of it.
proof fn lemma_reports(content: FollowupContent)
    ensures
        reports(content_json(content@), "updates"@, "id"@, content.updates@, content.id),
{
    reveal_strlit("updates");
    reveal_strlit("id");
    assert("updates"@.len() == 7);
    assert("id"@.len() == 2);
    law_values_are_seen_one_by_one(content.updates@);
    let fields = map![
        "updates"@ => JsonView::Array(content@.updates),
        "id"@ => JsonView::Text(id_text(content.id)),
    ];
    assert(fields.dom() =~= set!["updates"@, "id"@]);
}

/// A client reports all writes of an execution in order, with the text of its
/// identifier, to the update endpoint of the service.
pub proof fn law_a_client_reports_every_write(
    client: ConsistencyClient,
    id: u128,
    writes: Vec<Value>,
    request: FollowupRequest,
)
    requires
        call_ensures(ConsistencyClient::do_followup, (&client, id, writes), request),
    ensures
        request.url@ == client.url@ + "/update"@,
        reports(json_view(request.body), "Updates"@, "Id"@, writes@, id),
{
    reveal_strlit("Updates");
    reveal_strlit("Id");
    assert("Updates"@.len() == 7);
    assert("Id"@.len() == 2);
    law_values_are_seen_one_by_one(writes@);
    let fields = map![
        "Updates"@ => JsonView::Array(json_views(writes@)),
        "Id"@ => JsonView::Text(id_text(id)),
    ];
    assert(fields.dom() =~= set!["Updates"@, "Id"@]);
}

/// A follow-up reports all of its writes in order, with the text of its
/// identifier, to the update endpoint.
pub proof fn law_a_followup_reports_every_write(
    endpoint: &str,
    content: FollowupContent,
    request: FollowupRequest,
)
    requires
        call_ensures(send_followups, (endpoint, content), request),
    ensures
        request.url@ == endpoint@ + "/update"@,
        reports(json_view(request.body), "updates"@, "id"@, content.updates@, content.id),
{
    lemma_reports(content);
}

/// The extension reports all writes of a follow-up in order, with the text of
/// its identifier, to the update endpoint.
pub proof fn law_the_extension_reports_every_write(
    extension: FollowupExtension,
    content: FollowupContent,
    request: FollowupRequest,
)
    requires
        call_ensures(FollowupExtension::send_followups, (&extension, content), request),
    ensures
        request.url@ == extension.endpoint@ + "/update"@,
        reports(json_view(request.body), "updates"@, "id"@, content.updates@, content.id),
{
    lemma_reports(content);
}

/// The background task reports each follow-up that holds writes, and goes on
/// where it holds none.
pub proof fn law_the_task_reports_what_it_receives(
    endpoint: &str,
    content: FollowupContent,
    step: TaskStep,
)
    requires
        call_ensures(run_followup_task, (endpoint, TaskEvent::Received(Some(content))), step),
    ensures
        if content.updates@.len() > 0 {
            step matches TaskStep::Send(request) && request.url@ == endpoint@ + "/update"@
                && reports(
                json_view(request.body),
                "updates"@,
                "id"@,
                content.updates@,
                content.id,
            )
        } else {
            step is Receive
        },
{
    lemma_reports(content);
    law_values_are_seen_one_by_one(content.updates@);
}

/// The background task ends when its channel is closed.
pub proof fn law_the_task_ends_with_its_channel(endpoint: &str, step: TaskStep)
    requires
        call_ensures(run_followup_task, (endpoint, TaskEvent::Received(None)), step),
    ensures
        step is Stop,
{
}

/// The background task receives again behind each report, whether it went out
/// or not.
pub proof fn law_the_task_goes_on_after_a_report(
    endpoint: &str,
    sent: Result<(), String>,
    step: TaskStep,
)
    requires
        call_ensures(run_followup_task, (endpoint, TaskEvent::Sent(sent)), step),
    ensures
        step is Receive,
{
}

/// An extension reports to the endpoint that it is made with.
pub proof fn law_an_extension_keeps_its_endpoint(endpoint: String, extension: FollowupExtension)
    requires
        call_ensures(FollowupExtension::new, (endpoint,), extension),
    ensures
        extension.endpoint@ == endpoint@,
{
}

/// An extension waits for the follow-up of each invocation.
pub proof fn law_an_invoked_extension_waits(extension: FollowupExtension, step: ExtensionStep)
    requires
        call_ensures(FollowupExtension::invoke, (&extension, ExtensionEvent::Invoke), step),
    ensures
        step is Receive,
{
}

/// An extension reports a follow-up that holds writes, and is done where it
/// holds none.
pub proof fn law_the_extension_reports_what_it_receives(
    extension: FollowupExtension,
    content: FollowupContent,
    step: ExtensionStep,
)
    requires
        call_ensures(
            FollowupExtension::invoke,
            (&extension, ExtensionEvent::Received(Some(content))),
            step,
        ),
    ensures
        if content.updates@.len() > 0 {
            step matches ExtensionStep::Send(request)
                && request.url@ == extension.endpoint@ + "/update"@
                && reports(
                json_view(request.body),
                "updates"@,
                "id"@,
                content.updates@,
                content.id,
            )
        } else {
            step is Done
        },
{
    lemma_reports(content);
}

/// A closed channel ends an invocation with an error.
pub proof fn law_a_closed_channel_is_an_error(extension: FollowupExtension, step: ExtensionStep)
    requires
        call_ensures(
            FollowupExtension::invoke,
            (&extension, ExtensionEvent::Received(None)),
            step,
        ),
    ensures
        step matches ExtensionStep::Fail(message) && message@ == "channel is closed"@,
{
}

/// A shutdown ends an invocation with an error that describes it.
pub proof fn law_a_shutdown_is_an_error(
    extension: FollowupExtension,
    description: String,
    step: ExtensionStep,
)
    requires
        call_ensures(
            FollowupExtension::invoke,
            (&extension, ExtensionEvent::Shutdown(description)),
            step,
        ),
    ensures
        step matches ExtensionStep::Fail(message) && message@
            == "followup received unexpected shutdown evvent: "@ + description@,
{
}

/// A report that went out ends an invocation; a failed one is an error with its
/// message.
pub proof fn law_an_invocation_ends_with_its_report(
    extension: FollowupExtension,
    sent: Result<(), String>,
    step: ExtensionStep,
)
    requires
        call_ensures(FollowupExtension::invoke, (&extension, ExtensionEvent::Sent(sent)), step),
    ensures
        match sent {
            Ok(_) => step is Done,
            Err(error) => step matches ExtensionStep::Fail(message) && message@ == error@,
        },
{
}

/// The report of a follow-up has all of its updates in order and the text of its
/// identifier.
pub proof fn law_a_report_holds_every_update(endpoint: Seq<char>, content: FollowupView)
    ensures
        json_member(report(endpoint, content).body, "updates"@) == JsonView::Array(
            content.updates,
        ),
        json_member(report(endpoint, content).body, "id"@) == JsonView::Text(id_text(content.id)),
        report(endpoint, content).url == endpoint + "/update"@,
{
    reveal_strlit("updates");
    reveal_strlit("id");
    assert("updates"@.len() == 7);
    assert("id"@.len() == 2);
}

} // verus!
