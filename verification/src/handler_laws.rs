//! What each step of the HTTP deployment comes to, from what goes in to what
//! comes out.

use crate::bytes::pair_views;
use crate::consistency::{
    check_pairs, key_info_views, law_no_key_is_asked_twice, read_infos, without_repeats,
    write_infos, CheckResult,
};
use crate::handler::{
    dc_action, edge_action, edge_next, edge_state, encode_args, DcAction, DcActionView, DcEvent,
    DcEventView, DcPhase, EdgeAction, EdgeActionView, EdgeEvent, EdgeEventView, EdgePhase,
    EdgeRequest, EdgeRequestView, HandlerResponse, HandlerView, RadicalHandler, SetupEvent,
    SetupPhase, SetupStep, WasmError, WrapperError,
};
use crate::ids::id_text;
use crate::json::{json_encoded, json_view, json_views, JsonView};
use crate::storage::{update_views, version_views, KeySet, Versions};
use crate::view_laws::{lemma_same_updates, lemma_same_values, same_updates, same_values};
use crate::wasm::WasmResult;
use serde_json::Value;
use vstd::prelude::*;

verus! {

/// An answer holds a result, no updates, the durations of a handler and a
/// status of the check.
pub open spec fn answers(
    response: HandlerResponse,
    result: Value,
    handler: RadicalHandler,
    check_status: bool,
) -> bool {
    &&& json_view(response.result.result) == json_view(result)
    &&& response.updates@.len() == 0
    &&& response.latencies@ == handler.latencies@
    &&& response.remote_latencies@ == handler.remote_latencies@
    &&& response.check_status == check_status
}

/// Only the durations of a handler may have changed, to the given ones.
pub open spec fn measured(
    before: RadicalHandler,
    after: RadicalHandler,
    latencies: Map<Seq<char>, u128>,
) -> bool {
    &&& after.latencies@ == latencies
    &&& after.remote_latencies@ == before.remote_latencies@
    &&& after.check_url@ == before.check_url@
}

/// Nothing of a handler has changed.
pub open spec fn untouched(before: RadicalHandler, after: RadicalHandler) -> bool {
    measured(before, after, before.latencies@)
}

/// An execution ended with an error of the check.
pub open spec fn edge_failed(out: (EdgePhase, EdgeAction), message: Seq<char>) -> bool {
    &&& out.0 is Done
    &&& out.1 matches EdgeAction::Fail(WrapperError::CheckError(text)) && text@ == message
}

/// The members of a list come in the order in which they come first in another
/// one.
pub open spec fn in_first_order(
    list: Seq<(Seq<char>, Seq<u8>)>,
    source: Seq<(Seq<char>, Seq<u8>)>,
) -> bool {
    forall|i: int, j: int, b: int|
        #![trigger list[i], list[j], source[b]]
        0 <= i < j < list.len() && 0 <= b < source.len() && source[b] == list[j] ==> source.take(
            b,
        ).contains(list[i])
}

/// A list names the reads up to a place and the writes behind it, each once and
/// in the order in which they come first.
pub open spec fn splits_at(
    pairs: Seq<(Seq<char>, Seq<u8>)>,
    reads: Seq<(Seq<char>, Seq<u8>)>,
    writes: Seq<(Seq<char>, Seq<u8>)>,
    n: int,
) -> bool {
    &&& 0 <= n <= pairs.len()
    &&& pairs.take(n).no_duplicates()
    &&& pairs.take(n).to_set() == reads.to_set()
    &&& in_first_order(pairs.take(n), reads)
    &&& pairs.skip(n).no_duplicates()
    &&& pairs.skip(n).to_set() == writes.to_set()
    &&& in_first_order(pairs.skip(n), writes)
}

/// A list names each of the reads once and then each of the writes once.
pub open spec fn asks_once(
    pairs: Seq<(Seq<char>, Seq<u8>)>,
    reads: Seq<(Seq<char>, Seq<u8>)>,
    writes: Seq<(Seq<char>, Seq<u8>)>,
) -> bool {
    exists|n: int| splits_at(pairs, reads, writes, n)
}

/// A list without its repetitions keeps the order in which its members come
/// first.
proof fn lemma_in_first_order(pairs: Seq<(Seq<char>, Seq<u8>)>)
    ensures
        in_first_order(without_repeats(pairs), pairs),
    decreases pairs.len(),
{
    if pairs.len() > 0 {
        let rest = pairs.drop_last();
        let shorter = without_repeats(rest);
        let list = without_repeats(pairs);
        lemma_in_first_order(rest);
        law_no_key_is_asked_twice(rest);
        assert forall|i: int, j: int, b: int|
            #![trigger list[i], list[j], pairs[b]]
            0 <= i < j < list.len() && 0 <= b < pairs.len() && pairs[b]
                == list[j] implies pairs.take(b).contains(list[i]) by {
            assert(list[i] == shorter[i]);
            assert(shorter.to_set().contains(shorter[i]));
            assert(rest.to_set().contains(shorter[i]));
            let some = choose|a: int| 0 <= a < rest.len() && rest[a] == shorter[i];
            assert(pairs[some] == list[i]);
            if b == rest.len() {
                assert(pairs.take(b)[some] == list[i]);
            }
            if j < shorter.len() {
                assert(list[j] == shorter[j]);
                assert(shorter.to_set().contains(shorter[j]));
                assert(rest.to_set().contains(shorter[j]));
                let other = choose|c: int| 0 <= c < rest.len() && rest[c] == shorter[j];
                let c = if b < rest.len() {
                    b
                } else {
                    other
                };
                assert(rest[c] == shorter[j]);
                assert(rest.take(c).contains(shorter[i]));
                let a = choose|a: int| 0 <= a < c && rest.take(c)[a] == shorter[i];
                assert(pairs.take(b)[a] == list[i]);
            } else {
                if b < rest.len() {
                    assert(rest[b] == pairs.last());
                    assert(rest.to_set().contains(rest[b]));
                    assert(shorter.to_set().contains(pairs.last()));
                }
            }
        }
    }
}

/// The keys of a check name each of the reads and the writes once.
pub proof fn lemma_asks_once(
    reads: Seq<(Seq<char>, Seq<u8>)>,
    writes: Seq<(Seq<char>, Seq<u8>)>,
)
    ensures
        asks_once(check_pairs(reads, writes), reads, writes),
{
    law_no_key_is_asked_twice(reads);
    law_no_key_is_asked_twice(writes);
    lemma_in_first_order(reads);
    lemma_in_first_order(writes);
    let first = without_repeats(reads);
    let second = without_repeats(writes);
    let pairs = check_pairs(reads, writes);
    assert(pairs.take(first.len() as int) =~= first);
    assert(pairs.skip(first.len() as int) =~= second);
    assert(splits_at(pairs, reads, writes, first.len() as int));
}

/// A measured duration stands under its label and replaces the one before;
/// nothing else changes.
pub proof fn law_durations_are_kept_under_their_labels(
    handler: &mut RadicalHandler,
    label: &str,
    millis: u128,
)
    requires
        call_ensures(RadicalHandler::add_latency, (handler, label, millis), ()),
    ensures
        measured(*old(handler), *final(handler), old(handler).latencies@.insert(label@, millis)),
        final(handler).latencies@.contains_key(label@),
        final(handler).latencies@[label@] == millis,
{
}

/// A new handler has no durations and keeps the URL of the check.
pub proof fn law_a_new_handler_has_measured_nothing(
    check_url: String,
    handler: RadicalHandler,
)
    requires
        call_ensures(RadicalHandler::new, (check_url,), handler),
    ensures
        handler.latencies@ == Map::<Seq<char>, u128>::empty(),
        handler.remote_latencies@ == Map::<Seq<char>, i64>::empty(),
        handler.check_url@ == check_url@,
{
}

/// An answer holds the result, all updates in order, the durations of the
/// handler and the status that it is made with.
pub proof fn law_an_answer_holds_what_it_is_made_of(
    handler: RadicalHandler,
    result: WasmResult,
    updates: Vec<Value>,
    check_status: bool,
    response: HandlerResponse,
)
    requires
        call_ensures(
            RadicalHandler::construct_response,
            (&handler, result, updates, check_status),
            response,
        ),
    ensures
        json_view(response.result.result) == json_view(result.result),
        same_values(response.updates@, updates@),
        response.latencies@ == handler.latencies@,
        response.remote_latencies@ == handler.remote_latencies@,
        response.check_status == check_status,
{
    lemma_same_values(response.updates@, updates@);
}

/// The arguments of a function are the whole text that their JSON is written
/// as.
pub proof fn law_arguments_are_encoded_whole(
    args: Value,
    text: Vec<u8>,
)
    requires
        call_ensures(encode_args, (&args,), text),
    ensures
        text@ == json_encoded(json_view(args)),
{
}

/// The description of the error is its kind with the whole message.
pub proof fn law_a_linker_error_is_described(
    message: String,
    text: String,
)
    requires
        call_ensures(WasmError::message, (&WasmError::LinkerError(message),), text),
    ensures
        text@ == "linker error: "@ + message@,
{
}

/// The description of the error is its kind with the whole message.
pub proof fn law_a_execution_error_is_described(
    message: String,
    text: String,
)
    requires
        call_ensures(WasmError::message, (&WasmError::WasmExecError(message),), text),
    ensures
        text@ == "wasm execution error: "@ + message@,
{
}

/// The description of the error is its kind with the whole message.
pub proof fn law_a_check_error_is_described(
    message: String,
    text: String,
)
    requires
        call_ensures(WrapperError::message, (&WrapperError::CheckError(message),), text),
    ensures
        text@ == "check error: "@ + message@,
{
}

/// The description of the error is its kind with the whole message.
pub proof fn law_a_followup_error_is_described(
    message: String,
    text: String,
)
    requires
        call_ensures(WrapperError::message, (&WrapperError::FollowupError(message),), text),
    ensures
        text@ == "followup error: "@ + message@,
{
}

/// The description of the error is its kind with the whole message.
pub proof fn law_a_missing_function_error_is_described(
    message: String,
    text: String,
)
    requires
        call_ensures(WrapperError::message, (&WrapperError::FunctionNotFound(message),), text),
    ensures
        text@ == "function not found: "@ + message@,
{
}

/// A function that is found is linked next; one that is not ends the setup
/// under its own name.
pub proof fn law_setup_looks_the_function_up(
    handler: &mut RadicalHandler,
    name: &str,
    found: bool,
    load: u128,
    step: SetupStep,
)
    requires
        call_ensures(
            RadicalHandler::setup_wasm_blob,
            (handler, name, SetupPhase::Module, SetupEvent::Module { found, load }),
            step,
        ),
    ensures
        found ==> step is Link && measured(
            *old(handler),
            *final(handler),
            old(handler).latencies@.insert("blob_load"@, load),
        ),
        !found ==> {
            &&& step matches SetupStep::Fail(WrapperError::FunctionNotFound(missing)) && missing@
                == name@
            &&& untouched(*old(handler), *final(handler))
        },
{
}

/// Linked imports are followed by an instance; a failure ends the setup with
/// its message.
pub proof fn law_setup_links_the_imports(
    handler: &mut RadicalHandler,
    name: &str,
    outcome: Result<(), String>,
    link: u128,
    step: SetupStep,
)
    requires
        call_ensures(
            RadicalHandler::setup_wasm_blob,
            (handler, name, SetupPhase::Link, SetupEvent::Linked { outcome, link }),
            step,
        ),
    ensures
        match outcome {
            Ok(_) => step is Instantiate && measured(
                *old(handler),
                *final(handler),
                old(handler).latencies@.insert("blob_link"@, link),
            ),
            Err(message) => {
                &&& step matches SetupStep::Fail(WrapperError::CheckError(text)) && text@
                    == "Link error: "@ + message@
                &&& untouched(*old(handler), *final(handler))
            },
        },
{
}

/// An instance makes the function ready; a failure ends the setup with its
/// message.
pub proof fn law_setup_ends_with_an_instance(
    handler: &mut RadicalHandler,
    name: &str,
    outcome: Result<(), String>,
    instance: u128,
    total: u128,
    step: SetupStep,
)
    requires
        call_ensures(
            RadicalHandler::setup_wasm_blob,
            (
                handler,
                name,
                SetupPhase::Instance,
                SetupEvent::Instantiated { outcome, instance, total },
            ),
            step,
        ),
    ensures
        match outcome {
            Ok(_) => step is Ready && measured(
                *old(handler),
                *final(handler),
                old(handler).latencies@.insert(
                    "instance_setup"@,
                    instance,
                ).insert("wasm_setup"@, total),
            ),
            Err(message) => {
                &&& step matches SetupStep::Fail(WrapperError::CheckError(text)) && text@
                    == "Instance setup error: "@ + message@
                &&& untouched(*old(handler), *final(handler))
            },
        },
{
}

/// An event answers what the setup waits for.
pub open spec fn setup_fits(phase: SetupPhase, event: SetupEvent) -> bool {
    match event {
        SetupEvent::Module { .. } => phase is Module,
        SetupEvent::Linked { .. } => phase is Link,
        SetupEvent::Instantiated { .. } => phase is Instance,
    }
}

/// An event that the setup does not wait for changes nothing, and only such an
/// event is ignored.
pub proof fn law_setup_ignores_other_events(
    handler: &mut RadicalHandler,
    name: &str,
    phase: SetupPhase,
    event: SetupEvent,
    step: SetupStep,
)
    requires
        call_ensures(
            RadicalHandler::setup_wasm_blob,
            (handler, name, phase, event),
            step,
        ),
    ensures
        step is Ignored <==> !setup_fits(phase, event),
        step is Ignored ==> untouched(*old(handler), *final(handler)),
{
}

/// At the edge a function that is found is linked next; one that is not ends
/// the execution under its own name.
pub proof fn law_edge_looks_the_function_up(
    handler: &mut RadicalHandler,
    request: EdgeRequest,
    found: bool,
    load: u128,
    out: (EdgePhase, EdgeAction),
)
    requires
        call_ensures(
            RadicalHandler::edge_handler,
            (
                handler,
                &request,
                EdgePhase::Setup(SetupPhase::Module),
                EdgeEvent::Setup(SetupEvent::Module { found, load }),
            ),
            out,
        ),
    ensures
        found ==> {
            &&& out.0 matches EdgePhase::Setup(SetupPhase::Link)
            &&& out.1 is Link
            &&& measured(
                *old(handler),
                *final(handler),
                old(handler).latencies@.insert("blob_load"@, load),
            )
        },
        !found ==> {
            &&& out.0 is Done
            &&& out.1 matches EdgeAction::Fail(WrapperError::FunctionNotFound(missing)) && missing@
                == request.function_name@
            &&& untouched(*old(handler), *final(handler))
        },
{
}

/// At the edge linked imports are followed by an instance.
pub proof fn law_edge_links_the_imports(
    handler: &mut RadicalHandler,
    request: EdgeRequest,
    outcome: Result<(), String>,
    link: u128,
    out: (EdgePhase, EdgeAction),
)
    requires
        call_ensures(
            RadicalHandler::edge_handler,
            (
                handler,
                &request,
                EdgePhase::Setup(SetupPhase::Link),
                EdgeEvent::Setup(SetupEvent::Linked { outcome, link }),
            ),
            out,
        ),
    ensures
        match outcome {
            Ok(_) => {
                &&& out.0 matches EdgePhase::Setup(SetupPhase::Instance)
                &&& out.1 is Instantiate
                &&& measured(
                    *old(handler),
                    *final(handler),
                    old(handler).latencies@.insert("blob_link"@, link),
                )
            },
            Err(message) => edge_failed(
                out,
                "Link error: "@ + message@,
            ) && untouched(*old(handler), *final(handler)),
        },
{
}

/// At the edge the setup is followed by an instance that guesses the keys.
pub proof fn law_edge_ends_its_setup(
    handler: &mut RadicalHandler,
    request: EdgeRequest,
    outcome: Result<(), String>,
    instance: u128,
    total: u128,
    out: (EdgePhase, EdgeAction),
)
    requires
        call_ensures(
            RadicalHandler::edge_handler,
            (
                handler,
                &request,
                EdgePhase::Setup(SetupPhase::Instance),
                EdgeEvent::Setup(SetupEvent::Instantiated { outcome, instance, total }),
            ),
            out,
        ),
    ensures
        match outcome {
            Ok(_) => {
                &&& out.0 is GuessInstance
                &&& out.1 is Instantiate
                &&& measured(
                    *old(handler),
                    *final(handler),
                    old(handler).latencies@.insert(
                        "instance_setup"@,
                        instance,
                    ).insert("wasm_setup"@, total),
                )
            },
            Err(message) => edge_failed(
                out,
                "Instance setup error: "@ + message@,
            ) && untouched(*old(handler), *final(handler)),
        },
{
}

/// The guess of the keys is called with the length of the encoded arguments of
/// the request.
pub proof fn law_edge_guesses_with_its_arguments(
    handler: &mut RadicalHandler,
    request: EdgeRequest,
    outcome: Result<(), String>,
    out: (EdgePhase, EdgeAction),
)
    requires
        call_ensures(
            RadicalHandler::edge_handler,
            (handler, &request, EdgePhase::GuessInstance, EdgeEvent::Instantiated(outcome)),
            out,
        ),
    ensures
        match outcome {
            Ok(_) => {
                &&& out.0 is Guess
                &&& out.1 matches EdgeAction::GuessKey(n) && n == json_encoded(
                    json_view(request.args),
                ).len() as usize as i32
            },
            Err(message) => edge_failed(out, "Instance error: "@ + message@),
        },
        untouched(*old(handler), *final(handler)),
{
}

/// The versions that are asked for are those of the guessed keys: each key that
/// is read once, then each that is written once, in the order in which they
/// come first, and no other.
pub proof fn law_edge_asks_for_the_guessed_keys(
    handler: &mut RadicalHandler,
    request: EdgeRequest,
    outcome: Result<KeySet, String>,
    guess: u128,
    out: (EdgePhase, EdgeAction),
)
    requires
        call_ensures(
            RadicalHandler::edge_handler,
            (handler, &request, EdgePhase::Guess, EdgeEvent::Guessed { outcome, guess }),
            out,
        ),
    ensures
        match outcome {
            Ok(key_set) => {
                &&& out.0 matches EdgePhase::Versions(kept) && {
                    &&& pair_views(kept.read_set@) == pair_views(key_set.read_set@)
                    &&& pair_views(kept.write_set@) == pair_views(key_set.write_set@)
                }
                &&& out.1 matches EdgeAction::FetchVersions(pairs) && asks_once(
                    pair_views(pairs@),
                    pair_views(key_set.read_set@),
                    pair_views(key_set.write_set@),
                )
                &&& measured(
                    *old(handler),
                    *final(handler),
                    old(handler).latencies@.insert("key_guess"@, guess),
                )
            },
            Err(message) => edge_failed(
                out,
                "Key guess error: "@ + message@,
            ) && untouched(*old(handler), *final(handler)),
        },
{
    if let Ok(key_set) = outcome {
        lemma_asks_once(pair_views(key_set.read_set@), pair_views(key_set.write_set@));
    }
}

/// The check that is started is for this execution: it goes to the check
/// service and carries the arguments of the request, the text of its
/// identifier, the remote address of the function, and the versions that came
/// in.
pub proof fn law_edge_checks_its_own_execution(
    handler: &mut RadicalHandler,
    request: EdgeRequest,
    key_set: KeySet,
    versions: Versions,
    body: u128,
    out: (EdgePhase, EdgeAction),
)
    requires
        call_ensures(
            RadicalHandler::edge_handler,
            (
                handler,
                &request,
                EdgePhase::Versions(key_set),
                EdgeEvent::Versions { versions, body },
            ),
            out,
        ),
    ensures
        out.0 is Spawn,
        out.1 matches EdgeAction::SpawnCheck(check) && {
            &&& check.url@ == old(handler).check_url@ + "/check"@
            &&& json_view(check.body.args) == json_view(request.args)
            &&& check.body.id@ == id_text(request.exec_id)
            &&& check.body.function@ == request.remote_url@ + "/"@ + request.function_name@
            &&& key_info_views(check.body.read_keys@) == read_infos(
                version_views(versions@),
                pair_views(key_set.read_set@),
            )
            &&& key_info_views(check.body.write_keys@) == write_infos(
                version_views(versions@),
                pair_views(key_set.read_set@),
            )
        },
        measured(*old(handler), *final(handler), old(handler).latencies@.insert("body_end"@, body)),
{
}

/// Once the check is started, an instance for the run is made.
pub proof fn law_edge_runs_beside_its_check(
    handler: &mut RadicalHandler,
    request: EdgeRequest,
    spawn: u128,
    out: (EdgePhase, EdgeAction),
)
    requires
        call_ensures(
            RadicalHandler::edge_handler,
            (handler, &request, EdgePhase::Spawn, EdgeEvent::Spawned { spawn }),
            out,
        ),
    ensures
        out.0 is ExecInstance,
        out.1 is Instantiate,
        measured(
            *old(handler),
            *final(handler),
            old(handler).latencies@.insert("spawn_check"@, spawn),
        ),
{
}

/// Before a run the recorded writes are reset.
pub proof fn law_edge_resets_before_it_runs(
    handler: &mut RadicalHandler,
    request: EdgeRequest,
    outcome: Result<(), String>,
    out: (EdgePhase, EdgeAction),
)
    requires
        call_ensures(
            RadicalHandler::edge_handler,
            (handler, &request, EdgePhase::ExecInstance, EdgeEvent::Instantiated(outcome)),
            out,
        ),
    ensures
        match outcome {
            Ok(_) => out.0 is Reset && out.1 is ResetWrites,
            Err(message) => edge_failed(out, "Instance error: "@ + message@),
        },
        untouched(*old(handler), *final(handler)),
{
}

/// A run is called with the length of the encoded arguments of the request.
pub proof fn law_edge_runs_with_its_arguments(
    handler: &mut RadicalHandler,
    request: EdgeRequest,
    reset: u128,
    out: (EdgePhase, EdgeAction),
)
    requires
        call_ensures(
            RadicalHandler::edge_handler,
            (handler, &request, EdgePhase::Reset, EdgeEvent::WritesReset { reset }),
            out,
        ),
    ensures
        out.0 is Run,
        out.1 matches EdgeAction::RunBlob(n) && n == json_encoded(
            json_view(request.args),
        ).len() as usize as i32,
        measured(
            *old(handler),
            *final(handler),
            old(handler).latencies@.insert("reset_writes"@, reset),
        ),
{
}

/// A run that gave a result is followed by the collection of its writes, and
/// the result is kept.
pub proof fn law_edge_collects_behind_a_run(
    handler: &mut RadicalHandler,
    request: EdgeRequest,
    outcome: Result<Value, String>,
    run: u128,
    out: (EdgePhase, EdgeAction),
)
    requires
        call_ensures(
            RadicalHandler::edge_handler,
            (handler, &request, EdgePhase::Run, EdgeEvent::Ran { outcome, run }),
            out,
        ),
    ensures
        match outcome {
            Ok(result) => {
                &&& out.0 matches EdgePhase::Collect(kept) && json_view(kept) == json_view(result)
                &&& out.1 is CollectWrites
                &&& measured(
                    *old(handler),
                    *final(handler),
                    old(handler).latencies@.insert("wasm_execution"@, run),
                )
            },
            Err(message) => edge_failed(
                out,
                "WASM execution error: "@ + message@,
            ) && untouched(*old(handler), *final(handler)),
        },
{
}

/// The check is awaited with the result of the run and with all of its writes,
/// in order.
pub proof fn law_edge_waits_with_all_writes(
    handler: &mut RadicalHandler,
    request: EdgeRequest,
    result: Value,
    updates: Vec<Value>,
    collect: u128,
    out: (EdgePhase, EdgeAction),
)
    requires
        call_ensures(
            RadicalHandler::edge_handler,
            (
                handler,
                &request,
                EdgePhase::Collect(result),
                EdgeEvent::WritesCollected { updates, collect },
            ),
            out,
        ),
    ensures
        out.0 matches EdgePhase::Check(kept, writes) && json_view(kept) == json_view(result)
            && same_values(writes@, updates@),
        out.1 is AwaitCheck,
        measured(
            *old(handler),
            *final(handler),
            old(handler).latencies@.insert("collect_writes"@, collect),
        ),
{
    if let EdgePhase::Check(_, writes) = out.0 {
        lemma_same_values(writes@, updates@);
    }
}

/// Where the awaited check has passed, all collected writes go out as a follow-
/// up, in order and under the identifier of the execution, however many there
/// are.
pub proof fn law_a_passed_check_is_followed_up(
    handler: &mut RadicalHandler,
    request: EdgeRequest,
    result: Value,
    updates: Vec<Value>,
    verdict: CheckResult,
    check: u128,
    wait: u128,
    split: u128,
    e2e: u128,
    out: (EdgePhase, EdgeAction),
)
    requires
        call_ensures(
            RadicalHandler::edge_handler,
            (
                handler,
                &request,
                EdgePhase::Check(result, updates),
                EdgeEvent::Checked { outcome: Ok((verdict, check)), wait, split, e2e },
            ),
            out,
        ),
    ensures
        verdict.check_result ==> {
            &&& out.0 matches EdgePhase::Followup(kept) && json_view(kept) == json_view(result)
            &&& out.1 matches EdgeAction::SendFollowup(content) && same_values(
                content.updates@,
                updates@,
            ) && content.id == request.exec_id
            &&& final(handler).latencies@ == old(handler).latencies@.insert(
                "check_wait"@,
                wait,
            ).insert(
                "consistency_check"@,
                check,
            ).insert("split"@, split).insert("e2e"@, e2e)
        },
        final(handler).remote_latencies@ == verdict.latencies@,
        final(handler).check_url@ == old(handler).check_url@,
{
    if let EdgeAction::SendFollowup(content) = out.1 {
        lemma_same_values(content.updates@, updates@);
    }
}

/// Where the awaited check has failed, the updates that came with the verdict
/// are applied, all of them and in order. Without updates the result of the run
/// is answered at once, as one that failed the check.
pub proof fn law_a_failed_check_takes_the_updates_over(
    handler: &mut RadicalHandler,
    request: EdgeRequest,
    result: Value,
    updates: Vec<Value>,
    verdict: CheckResult,
    check: u128,
    wait: u128,
    split: u128,
    e2e: u128,
    out: (EdgePhase, EdgeAction),
)
    requires
        call_ensures(
            RadicalHandler::edge_handler,
            (
                handler,
                &request,
                EdgePhase::Check(result, updates),
                EdgeEvent::Checked { outcome: Ok((verdict, check)), wait, split, e2e },
            ),
            out,
        ),
    ensures
        !verdict.check_result && verdict.updates@.len() > 0 ==> {
            &&& out.0 matches EdgePhase::Apply(kept) && json_view(kept) == json_view(result)
            &&& out.1 matches EdgeAction::ApplyUpdates(applied) && same_updates(
                applied@,
                verdict.updates@,
            )
            &&& final(handler).latencies@ == old(handler).latencies@.insert(
                "check_wait"@,
                wait,
            ).insert(
                "consistency_check"@,
                check,
            ).insert("split"@, split)
        },
        !verdict.check_result && verdict.updates@.len() == 0 ==> {
            &&& out.0 is Done
            &&& out.1 matches EdgeAction::Respond(response) && answers(
                response,
                result,
                *final(handler),
                false,
            )
            &&& final(handler).latencies@ == old(handler).latencies@.insert(
                "check_wait"@,
                wait,
            ).insert(
                "consistency_check"@,
                check,
            ).insert("split"@, split).insert("e2e"@, e2e)
        },
{
    assert(update_views(verdict.updates@).len() == verdict.updates@.len());
    if let EdgeAction::ApplyUpdates(applied) = out.1 {
        lemma_same_updates(applied@, verdict.updates@);
    }
    if let EdgeAction::Respond(response) = out.1 {
        assert(json_views(response.updates@).len() == response.updates@.len());
    }
}

/// A check that gave no verdict ends the execution with an error.
pub proof fn law_a_check_that_gave_no_verdict_is_an_error(
    handler: &mut RadicalHandler,
    request: EdgeRequest,
    result: Value,
    updates: Vec<Value>,
    wait: u128,
    split: u128,
    e2e: u128,
    out: (EdgePhase, EdgeAction),
)
    requires
        call_ensures(
            RadicalHandler::edge_handler,
            (
                handler,
                &request,
                EdgePhase::Check(result, updates),
                EdgeEvent::Checked { outcome: Err(()), wait, split, e2e },
            ),
            out,
        ),
    ensures
        edge_failed(out, "Consistency check error"@),
        untouched(*old(handler), *final(handler)),
{
}

/// Behind a follow-up that was handed over the result of the run is answered,
/// as one that passed the check; one that could not be handed over is an error.
pub proof fn law_a_followed_up_execution_is_answered(
    handler: &mut RadicalHandler,
    request: EdgeRequest,
    result: Value,
    outcome: Result<(), String>,
    followup: u128,
    out: (EdgePhase, EdgeAction),
)
    requires
        call_ensures(
            RadicalHandler::edge_handler,
            (
                handler,
                &request,
                EdgePhase::Followup(result),
                EdgeEvent::FollowupSent { outcome, followup },
            ),
            out,
        ),
    ensures
        out.0 is Done,
        match outcome {
            Ok(_) => {
                &&& out.1 matches EdgeAction::Respond(response) && answers(
                    response,
                    result,
                    *final(handler),
                    true,
                )
                &&& measured(
                    *old(handler),
                    *final(handler),
                    old(handler).latencies@.insert("followup"@, followup),
                )
            },
            Err(message) => {
                &&& out.1 matches EdgeAction::Fail(WrapperError::FollowupError(text)) && text@
                    == message@
                &&& untouched(*old(handler), *final(handler))
            },
        },
{
    if let EdgeAction::Respond(response) = out.1 {
        assert(json_views(response.updates@).len() == response.updates@.len());
    }
}

/// Behind the updates of the datacenter the result of the run is answered, as
/// one that failed the check.
pub proof fn law_an_updated_execution_is_answered(
    handler: &mut RadicalHandler,
    request: EdgeRequest,
    result: Value,
    update: u128,
    e2e: u128,
    out: (EdgePhase, EdgeAction),
)
    requires
        call_ensures(
            RadicalHandler::edge_handler,
            (
                handler,
                &request,
                EdgePhase::Apply(result),
                EdgeEvent::UpdatesApplied { update, e2e },
            ),
            out,
        ),
    ensures
        out.0 is Done,
        out.1 matches EdgeAction::Respond(response) && answers(
            response,
            result,
            *final(handler),
            false,
        ),
        measured(
            *old(handler),
            *final(handler),
            old(handler).latencies@.insert("update_state"@, update).insert("e2e"@, e2e),
        ),
{
    if let EdgeAction::Respond(response) = out.1 {
        assert(json_views(response.updates@).len() == response.updates@.len());
    }
}

/// An event answers what an execution at the edge waits for.
pub open spec fn edge_fits(phase: EdgePhase, event: EdgeEvent) -> bool {
    match event {
        EdgeEvent::Setup(event) => phase matches EdgePhase::Setup(setup) && setup_fits(
            setup,
            event,
        ),
        EdgeEvent::Instantiated(_) => phase is GuessInstance || phase is ExecInstance,
        EdgeEvent::Guessed { .. } => phase is Guess,
        EdgeEvent::Versions { .. } => phase is Versions,
        EdgeEvent::Spawned { .. } => phase is Spawn,
        EdgeEvent::WritesReset { .. } => phase is Reset,
        EdgeEvent::Ran { .. } => phase is Run,
        EdgeEvent::WritesCollected { .. } => phase is Collect,
        EdgeEvent::Checked { .. } => phase is Check,
        EdgeEvent::FollowupSent { .. } => phase is Followup,
        EdgeEvent::UpdatesApplied { .. } => phase is Apply,
    }
}

/// An event that an execution at the edge does not wait for changes nothing,
/// and only such an event is ignored.
pub proof fn law_edge_ignores_other_events(
    handler: &mut RadicalHandler,
    request: EdgeRequest,
    phase: EdgePhase,
    event: EdgeEvent,
    out: (EdgePhase, EdgeAction),
)
    requires
        call_ensures(
            RadicalHandler::edge_handler,
            (handler, &request, phase, event),
            out,
        ),
    ensures
        out.1 is Ignored <==> !edge_fits(phase, event),
        out.1 is Ignored ==> out.0@ == phase@ && untouched(*old(handler), *final(handler)),
{
}

/// An execution in the datacenter ended with an error of the check.
pub open spec fn dc_failed(out: (DcPhase, DcAction), message: Seq<char>) -> bool {
    &&& out.0 is Done
    &&& out.1 matches DcAction::Fail(WrapperError::CheckError(text)) && text@ == message
}

/// In the datacenter a function that is found is linked next; one that is not
/// ends the execution under its own name.
pub proof fn law_dc_looks_the_function_up(
    handler: &mut RadicalHandler,
    name: &str,
    args: Value,
    found: bool,
    load: u128,
    out: (DcPhase, DcAction),
)
    requires
        call_ensures(
            RadicalHandler::dc_handler,
            (
                handler,
                name,
                &args,
                DcPhase::Setup(SetupPhase::Module),
                DcEvent::Setup(SetupEvent::Module { found, load }),
            ),
            out,
        ),
    ensures
        found ==> {
            &&& out.0 matches DcPhase::Setup(SetupPhase::Link)
            &&& out.1 is Link
            &&& measured(
                *old(handler),
                *final(handler),
                old(handler).latencies@.insert("blob_load"@, load),
            )
        },
        !found ==> {
            &&& out.0 is Done
            &&& out.1 matches DcAction::Fail(WrapperError::FunctionNotFound(missing)) && missing@
                == name@
            &&& untouched(*old(handler), *final(handler))
        },
{
}

/// In the datacenter linked imports are followed by an instance.
pub proof fn law_dc_links_the_imports(
    handler: &mut RadicalHandler,
    name: &str,
    args: Value,
    outcome: Result<(), String>,
    link: u128,
    out: (DcPhase, DcAction),
)
    requires
        call_ensures(
            RadicalHandler::dc_handler,
            (
                handler,
                name,
                &args,
                DcPhase::Setup(SetupPhase::Link),
                DcEvent::Setup(SetupEvent::Linked { outcome, link }),
            ),
            out,
        ),
    ensures
        match outcome {
            Ok(_) => {
                &&& out.0 matches DcPhase::Setup(SetupPhase::Instance)
                &&& out.1 is Instantiate
                &&& measured(
                    *old(handler),
                    *final(handler),
                    old(handler).latencies@.insert("blob_link"@, link),
                )
            },
            Err(message) => dc_failed(
                out,
                "Link error: "@ + message@,
            ) && untouched(*old(handler), *final(handler)),
        },
{
}

/// In the datacenter the setup is followed by the instance of the run.
pub proof fn law_dc_ends_its_setup(
    handler: &mut RadicalHandler,
    name: &str,
    args: Value,
    outcome: Result<(), String>,
    instance: u128,
    total: u128,
    out: (DcPhase, DcAction),
)
    requires
        call_ensures(
            RadicalHandler::dc_handler,
            (
                handler,
                name,
                &args,
                DcPhase::Setup(SetupPhase::Instance),
                DcEvent::Setup(SetupEvent::Instantiated { outcome, instance, total }),
            ),
            out,
        ),
    ensures
        match outcome {
            Ok(_) => {
                &&& out.0 is Instance
                &&& out.1 is Instantiate
                &&& measured(
                    *old(handler),
                    *final(handler),
                    old(handler).latencies@.insert(
                        "instance_setup"@,
                        instance,
                    ).insert("wasm_setup"@, total),
                )
            },
            Err(message) => dc_failed(
                out,
                "Instance setup error: "@ + message@,
            ) && untouched(*old(handler), *final(handler)),
        },
{
}

/// In the datacenter the recorded writes are reset before a run.
pub proof fn law_dc_resets_before_it_runs(
    handler: &mut RadicalHandler,
    name: &str,
    args: Value,
    outcome: Result<(), String>,
    out: (DcPhase, DcAction),
)
    requires
        call_ensures(
            RadicalHandler::dc_handler,
            (handler, name, &args, DcPhase::Instance, DcEvent::Instantiated(outcome)),
            out,
        ),
    ensures
        match outcome {
            Ok(_) => out.0 is Reset && out.1 is ResetWrites,
            Err(message) => dc_failed(out, "Instance error: "@ + message@),
        },
        untouched(*old(handler), *final(handler)),
{
}

/// In the datacenter a run is called with the length of the encoded arguments.
pub proof fn law_dc_runs_with_its_arguments(
    handler: &mut RadicalHandler,
    name: &str,
    args: Value,
    out: (DcPhase, DcAction),
)
    requires
        call_ensures(
            RadicalHandler::dc_handler,
            (handler, name, &args, DcPhase::Reset, DcEvent::WritesReset),
            out,
        ),
    ensures
        out.0 is Run,
        out.1 matches DcAction::RunBlob(n)
            && n == json_encoded(json_view(args)).len() as usize as i32,
        untouched(*old(handler), *final(handler)),
{
}

/// In the datacenter a run that gave a result is followed by the collection of
/// its writes, and the result is kept.
pub proof fn law_dc_collects_behind_a_run(
    handler: &mut RadicalHandler,
    name: &str,
    args: Value,
    outcome: Result<Value, String>,
    out: (DcPhase, DcAction),
)
    requires
        call_ensures(
            RadicalHandler::dc_handler,
            (handler, name, &args, DcPhase::Run, DcEvent::Ran(outcome)),
            out,
        ),
    ensures
        match outcome {
            Ok(result) => {
                &&& out.0 matches DcPhase::Collect(kept) && json_view(kept) == json_view(result)
                &&& out.1 is CollectWrites
            },
            Err(message) => dc_failed(out, "WASM execution error: "@ + message@),
        },
        untouched(*old(handler), *final(handler)),
{
}

/// The answer of the datacenter carries the result of the run and all of its
/// writes in order, and claims no passed check.
pub proof fn law_dc_answers_with_all_writes(
    handler: &mut RadicalHandler,
    name: &str,
    args: Value,
    result: Value,
    updates: Vec<Value>,
    run: u128,
    collect: u128,
    e2e: u128,
    out: (DcPhase, DcAction),
)
    requires
        call_ensures(
            RadicalHandler::dc_handler,
            (
                handler,
                name,
                &args,
                DcPhase::Collect(result),
                DcEvent::WritesCollected { updates, run, collect, e2e },
            ),
            out,
        ),
    ensures
        out.0 is Done,
        out.1 matches DcAction::Respond(response) && {
            &&& json_view(response.result.result) == json_view(result)
            &&& same_values(response.updates@, updates@)
            &&& response.latencies@ == final(handler).latencies@
            &&& response.remote_latencies@ == final(handler).remote_latencies@
            &&& !response.check_status
        },
        measured(
            *old(handler),
            *final(handler),
            old(handler).latencies@.insert("wasm_execution"@, run).insert(
                "collect_updates"@,
                collect,
            ).insert("e2e"@, e2e),
        ),
{
    if let DcAction::Respond(response) = out.1 {
        lemma_same_values(response.updates@, updates@);
    }
}

/// An event answers what an execution in the datacenter waits for.
pub open spec fn dc_fits(phase: DcPhase, event: DcEvent) -> bool {
    match event {
        DcEvent::Setup(event) => phase matches DcPhase::Setup(setup) && setup_fits(setup, event),
        DcEvent::Instantiated(_) => phase is Instance,
        DcEvent::WritesReset => phase is Reset,
        DcEvent::Ran(_) => phase is Run,
        DcEvent::WritesCollected { .. } => phase is Collect,
    }
}

/// An event that an execution in the datacenter does not wait for changes
/// nothing, and only such an event is ignored.
pub proof fn law_dc_ignores_other_events(
    handler: &mut RadicalHandler,
    name: &str,
    args: Value,
    phase: DcPhase,
    event: DcEvent,
    out: (DcPhase, DcAction),
)
    requires
        call_ensures(
            RadicalHandler::dc_handler,
            (handler, name, &args, phase, event),
            out,
        ),
    ensures
        out.1 is Ignored <==> !dc_fits(phase, event),
        out.1 is Ignored ==> out.0@ == phase@ && untouched(*old(handler), *final(handler)),
{
}

/// The handler keeps the URL of the check.
proof fn lemma_check_url_stays(
    handler: HandlerView,
    request: EdgeRequestView,
    events: Seq<EdgeEventView>,
)
    ensures
        edge_state(handler, request, events).0.check_url == handler.check_url,
    decreases events.len(),
{
    if events.len() > 0 {
        lemma_check_url_stays(handler, request, events.drop_last());
    }
}

/// Whatever happens, a function at the edge is called with the length of the
/// encoded arguments of the request, to guess its keys as well as to run.
pub proof fn law_every_call_gets_the_arguments(
    handler: HandlerView,
    request: EdgeRequestView,
    events: Seq<EdgeEventView>,
    i: int,
)
    requires
        0 <= i < events.len(),
    ensures
        match edge_action(handler, request, events, i) {
            EdgeActionView::GuessKey(n) => n == json_encoded(request.args).len() as usize as i32,
            EdgeActionView::RunBlob(n) => n == json_encoded(request.args).len() as usize as i32,
            _ => true,
        },
{
}

/// Whatever happens, a function in the datacenter is called with the length of
/// its encoded arguments.
pub proof fn law_every_dc_run_gets_the_arguments(
    handler: HandlerView,
    function_name: Seq<char>,
    args: JsonView,
    events: Seq<DcEventView>,
    i: int,
)
    requires
        0 <= i < events.len(),
    ensures
        dc_action(handler, function_name, args, events, i) matches DcActionView::RunBlob(n) ==> n
            == json_encoded(args).len() as usize as i32,
{
}

/// Whatever happens, a check is for the execution that starts it: it goes to
/// the check service of the handler and carries the arguments of the request,
/// the text of its identifier and the remote address of its function.
pub proof fn law_every_check_is_for_its_execution(
    handler: HandlerView,
    request: EdgeRequestView,
    events: Seq<EdgeEventView>,
    i: int,
)
    requires
        0 <= i < events.len(),
    ensures
        edge_action(handler, request, events, i) matches EdgeActionView::SpawnCheck(url, body)
            ==> {
            &&& url == handler.check_url + "/check"@
            &&& body.args == request.args
            &&& body.id == id_text(request.exec_id)
            &&& body.function == request.remote_url + "/"@ + request.function_name
        },
{
    lemma_check_url_stays(handler, request, events.take(i));
}

/// An awaited verdict is acted upon: where it passed, exactly the writes that
/// were collected go out under the identifier of the execution; where it
/// failed, exactly its own updates are applied, or the answer says at once that
/// the check failed where it has none.
pub proof fn law_an_awaited_verdict_is_acted_upon(
    handler: HandlerView,
    request: EdgeRequestView,
    events: Seq<EdgeEventView>,
    i: int,
)
    requires
        0 < i < events.len(),
        edge_action(handler, request, events, i - 1) is AwaitCheck,
    ensures
        events[i - 1] is WritesCollected,
        events[i] matches EdgeEventView::Checked { outcome: Ok((verdict, _)), .. } ==> if (
        verdict.check_result) {
            edge_action(handler, request, events, i) matches EdgeActionView::SendFollowup(content)
                && content.updates == events[i - 1]->WritesCollected_updates && content.id
                == request.exec_id
        } else if verdict.updates.len() > 0 {
            edge_action(handler, request, events, i) matches EdgeActionView::ApplyUpdates(updates)
                && updates == verdict.updates
        } else {
            edge_action(handler, request, events, i) matches EdgeActionView::Respond(response)
                && !response.check_status
        },
{
    assert(events.take(i).drop_last() =~= events.take(i - 1));
}

/// The event with a number is a verdict that was awaited.
pub open spec fn awaited_verdict(
    handler: HandlerView,
    request: EdgeRequestView,
    events: Seq<EdgeEventView>,
    j: int,
    passed: bool,
) -> bool {
    &&& 0 <= j < events.len()
    &&& events[j] matches EdgeEventView::Checked { outcome: Ok((verdict, _)), .. }
        && verdict.check_result == passed
    &&& !(edge_action(handler, request, events, j) is Ignored)
}

/// Whoever waits for the follow-up has got a passed verdict, and whoever waits
/// for the updates a failed one.
proof fn lemma_verdict_came_in(
    handler: HandlerView,
    request: EdgeRequestView,
    events: Seq<EdgeEventView>,
)
    ensures
        edge_state(handler, request, events).1 is Followup ==> exists|j: int|
            awaited_verdict(handler, request, events, j, true),
        edge_state(handler, request, events).1 is Apply ==> exists|j: int|
            awaited_verdict(handler, request, events, j, false),
    decreases events.len(),
{
    if events.len() > 0 {
        let n = events.len() - 1;
        let rest = events.drop_last();
        assert(rest =~= events.take(n));
        lemma_verdict_came_in(handler, request, rest);
        let (before, phase) = edge_state(handler, request, rest);
        let (after, next, action) = edge_next(before, request, phase, events.last());
        assert(action == edge_action(handler, request, events, n));
        if next is Followup || next is Apply {
            let passed = next is Followup;
            if phase is Check {
                assert(awaited_verdict(handler, request, events, n, passed));
            } else {
                let j = choose|j: int| awaited_verdict(handler, request, rest, j, passed);
                assert(rest.take(j) =~= events.take(j));
                assert(awaited_verdict(handler, request, events, j, passed));
            }
        }
    }
}

/// Whatever happens, the status in an answer is that of a verdict that was
/// awaited and came in.
pub proof fn law_the_status_is_that_of_a_verdict(
    handler: HandlerView,
    request: EdgeRequestView,
    events: Seq<EdgeEventView>,
    i: int,
)
    requires
        0 <= i < events.len(),
        edge_action(handler, request, events, i) is Respond,
    ensures
        exists|j: int|
            j <= i && awaited_verdict(
                handler,
                request,
                events,
                j,
                edge_action(handler, request, events, i)->Respond_0.check_status,
            ),
{
    let prefix = events.take(i);
    lemma_verdict_came_in(handler, request, prefix);
    let passed = edge_action(handler, request, events, i)->Respond_0.check_status;
    if edge_state(handler, request, prefix).1 is Check {
        assert(awaited_verdict(handler, request, events, i, passed));
    } else {
        let j = choose|j: int| awaited_verdict(handler, request, prefix, j, passed);
        assert(prefix.take(j) =~= events.take(j));
        assert(awaited_verdict(handler, request, events, j, passed));
    }
}

} // verus!
