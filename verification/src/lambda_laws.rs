//! What each step of the Lambda deployment comes to, from what goes in to what
//! comes out.

use crate::bytes::pair_views;
use crate::handler::WasmError;
use crate::ids::{id_digit, id_parsed, id_text};
use crate::json::{
    json_encoded, json_member, json_parsed, json_text, json_view, json_views, JsonView,
};
use crate::lambda::{
    dc_action, dc_body, edge_action, number_fields, numbers_json, read_request, reported_response,
    request_of, respond_with, result_json, DcAction, DcActionView, DcEvent, DcEventView, DcPhase,
    Diagnostic, EdgeAction, EdgeActionView, EdgeEvent, EdgeEventView, EdgePhase, EdgeRequest,
    EdgeRequestView, ExecutionResult, ExecutionView, JsonInteger, LambdaError, LambdaHandlerView,
    LambdaRequest, LambdaResponse, RadicalHandler, RequestError, SetupEvent, SetupPhase, SetupStep,
    WrapperError,
};
use crate::view_laws::has_fields;
use crate::wasm::WasmResult;
use serde_json::Value;
use vstd::prelude::*;

verus! {

/// Only the durations of a handler may have changed, to the given ones.
pub open spec fn measured(
    before: RadicalHandler,
    after: RadicalHandler,
    latencies: Map<Seq<char>, u64>,
) -> bool {
    &&& after.latencies@ == latencies
    &&& after.remote_latencies@ == before.remote_latencies@
    &&& after.check_url@ == before.check_url@
}

/// Nothing of a handler has changed.
pub open spec fn untouched(before: RadicalHandler, after: RadicalHandler) -> bool {
    measured(before, after, before.latencies@)
}

/// An answer is a JSON value as text.
pub open spec fn carries(response: LambdaResponse, json: JsonView) -> bool {
    &&& response.status == 200
    &&& response.content_type@ == "application/json"@
    &&& response.body@ == json_text(json)
}

/// A JSON object holds the durations under their labels.
pub open spec fn holds_durations(json: JsonView, numbers: Map<Seq<char>, u64>) -> bool {
    &&& has_fields(json, numbers.dom())
    &&& forall|label: Seq<char>| #[trigger]
        numbers.contains_key(label) ==> json_member(json, label) == JsonView::Integer(
            numbers[label] as int,
        )
}

/// A JSON object holds the durations of the remote side under their labels.
pub open spec fn holds_remote_durations(json: JsonView, numbers: Map<Seq<char>, i64>) -> bool {
    &&& has_fields(json, numbers.dom())
    &&& forall|label: Seq<char>| #[trigger]
        numbers.contains_key(label) ==> json_member(json, label) == JsonView::Integer(
            numbers[label] as int,
        )
}

/// The result and the durations of an answer.
pub open spec fn tells(
    json: JsonView,
    result: JsonView,
    latencies: Map<Seq<char>, u64>,
    remote_latencies: Map<Seq<char>, i64>,
) -> bool {
    &&& has_fields(json_member(json, "result"@), set!["result"@])
    &&& json_member(json_member(json, "result"@), "result"@) == result
    &&& holds_durations(json_member(json, "latencies"@), latencies)
    &&& holds_remote_durations(json_member(json, "remote_latencies"@), remote_latencies)
}

/// An answer tells the result, the durations, the updates and the status of
/// the check, and nothing else.
pub open spec fn full_answer(
    response: LambdaResponse,
    handler: RadicalHandler,
    result: Value,
    updates: Seq<Value>,
    check_status: bool,
) -> bool {
    exists|json: JsonView| #[trigger]
        carries(response, json) && {
            &&& has_fields(
                json,
                set![
                    "result"@,
                    "updates"@,
                    "latencies"@,
                    "remote_latencies"@,
                    "check_status"@,
                ],
            )
            &&& tells(json, json_view(result), handler.latencies@, handler.remote_latencies@)
            &&& json_member(json, "updates"@) == JsonView::Array(json_views(updates))
            &&& json_member(json, "check_status"@) == JsonView::Boolean(check_status)
        }
}

/// An answer tells the result and the durations, and nothing else.
pub open spec fn short_answer(
    response: LambdaResponse,
    handler: RadicalHandler,
    result: Value,
) -> bool {
    exists|json: JsonView| #[trigger]
        carries(response, json) && {
            &&& has_fields(json, set!["result"@, "latencies"@, "remote_latencies"@])
            &&& tells(json, json_view(result), handler.latencies@, handler.remote_latencies@)
        }
}

/// The names of the fields of answers differ.
proof fn lemma_names_differ()
    ensures
        "result"@.len() == 6,
        "updates"@.len() == 7,
        "latencies"@.len() == 9,
        "check_status"@.len() == 12,
        "remote_latencies"@.len() == 16,
{
    reveal_strlit("result");
    reveal_strlit("updates");
    reveal_strlit("latencies");
    reveal_strlit("check_status");
    reveal_strlit("remote_latencies");
}

/// The durations of a handler as JSON hold each of them under its label.
proof fn lemma_numbers(latencies: Map<Seq<char>, u64>, remote_latencies: Map<Seq<char>, i64>)
    ensures
        holds_durations(numbers_json(latencies), latencies),
        holds_remote_durations(numbers_json(remote_latencies), remote_latencies),
{
    assert(number_fields(latencies).dom() =~= latencies.dom());
    assert(number_fields(remote_latencies).dom() =~= remote_latencies.dom());
}

/// The answer of a handler tells what it is made of.
proof fn lemma_full_answer(
    response: LambdaResponse,
    handler: RadicalHandler,
    result: Value,
    updates: Seq<Value>,
    check_status: bool,
)
    requires
        response@ == handler@.response(json_view(result), json_views(updates), check_status),
    ensures
        full_answer(response, handler, result, updates, check_status),
{
    lemma_names_differ();
    lemma_numbers(handler.latencies@, handler.remote_latencies@);
    let fields = map![
        "result"@ => result_json(json_view(result)),
        "updates"@ => JsonView::Array(json_views(updates)),
        "latencies"@ => numbers_json(handler.latencies@),
        "remote_latencies"@ => numbers_json(handler.remote_latencies@),
        "check_status"@ => JsonView::Boolean(check_status),
    ];
    assert(fields.dom() =~= set![
        "result"@,
        "updates"@,
        "latencies"@,
        "remote_latencies"@,
        "check_status"@,
    ]);
    let inner = map!["result"@ => json_view(result)];
    assert(inner.dom() =~= set!["result"@]);
    assert(carries(response, JsonView::Object(fields)));
}

/// The answer that goes with a report tells what it is made of.
proof fn lemma_short_answer(
    response: LambdaResponse,
    execution: ExecutionView,
    handler: RadicalHandler,
    result: Value,
)
    requires
        response@ == reported_response(execution),
        execution.result == json_view(result),
        execution.latencies == handler.latencies@,
        execution.remote_latencies == handler.remote_latencies@,
    ensures
        short_answer(response, handler, result),
{
    lemma_names_differ();
    lemma_numbers(handler.latencies@, handler.remote_latencies@);
    let fields = map![
        "result"@ => result_json(json_view(result)),
        "latencies"@ => numbers_json(handler.latencies@),
        "remote_latencies"@ => numbers_json(handler.remote_latencies@),
    ];
    assert(fields.dom() =~= set!["result"@, "latencies"@, "remote_latencies"@]);
    let inner = map!["result"@ => json_view(result)];
    assert(inner.dom() =~= set!["result"@]);
    assert(carries(response, JsonView::Object(fields)));
}

/// A measured duration stands under its label and replaces the one before;
/// nothing else changes.
pub proof fn law_durations_are_kept_under_their_labels(
    handler: &mut RadicalHandler,
    label: &str,
    millis: u64,
)
    requires
        call_ensures(RadicalHandler::add_latency, (handler, label, millis), ()),
    ensures
        measured(*old(handler), *final(handler), old(handler).latencies@.insert(label@, millis)),
{
}

/// A new handler has no durations and keeps the URL of the check.
pub proof fn law_a_new_handler_has_measured_nothing(check_url: String, handler: RadicalHandler)
    requires
        call_ensures(RadicalHandler::new, (check_url,), handler),
    ensures
        handler.latencies@ == Map::<Seq<char>, u64>::empty(),
        handler.remote_latencies@ == Map::<Seq<char>, i64>::empty(),
        handler.check_url@ == check_url@,
{
}

/// An answer holds the result, all updates in order, the durations of the
/// handler and the status that it is made with, and nothing else.
pub proof fn law_an_answer_holds_what_it_is_made_of(
    handler: RadicalHandler,
    result: WasmResult,
    updates: Vec<Value>,
    check_status: bool,
    response: LambdaResponse,
)
    requires
        call_ensures(
            RadicalHandler::construct_response,
            (&handler, result, updates, check_status),
            response,
        ),
    ensures
        full_answer(response, handler, result.result, updates@, check_status),
{
    lemma_full_answer(response, handler, result.result, updates@, check_status);
}

/// The answer that carries a JSON value is its whole text.
pub proof fn law_a_value_is_answered_whole(body: Value, response: LambdaResponse)
    requires
        call_ensures(respond_with, (&body,), response),
    ensures
        carries(response, json_view(body)),
{
}

/// The answer that goes with a report tells its result and its durations, and
/// nothing else.
pub proof fn law_a_reported_execution_is_answered(
    execution: ExecutionResult,
    handler: RadicalHandler,
    response: LambdaResponse,
)
    requires
        call_ensures(ExecutionResult::response, (&execution,), response),
        execution.latencies@ == handler.latencies@,
        execution.remote_latencies@ == handler.remote_latencies@,
    ensures
        short_answer(response, handler, execution.result.result),
{
    lemma_short_answer(response, execution@, handler, execution.result.result);
}

/// The description of the error is its kind with the whole message.
pub proof fn law_a_check_error_is_described(message: String, text: String)
    requires
        call_ensures(WrapperError::message, (&WrapperError::CheckError(message),), text),
    ensures
        text@ == "check error: "@ + message@,
{
}

/// The description of the error is its kind with the whole message.
pub proof fn law_a_followup_error_is_described(message: String, text: String)
    requires
        call_ensures(WrapperError::message, (&WrapperError::FollowupError(message),), text),
    ensures
        text@ == "followup error: "@ + message@,
{
}

/// The runtime is told the kind of the error and its bare message.
pub proof fn law_a_linker_error_is_diagnosed(message: String, diagnostic: Diagnostic)
    requires
        call_ensures(
            <Diagnostic as From<WasmError>>::from,
            (WasmError::LinkerError(message),),
            diagnostic,
        ),
    ensures
        diagnostic.error_type@ == "LinkerError"@,
        diagnostic.error_message@ == message@,
{
}

/// The runtime is told the kind of the error and its bare message.
pub proof fn law_a_execution_error_is_diagnosed(message: String, diagnostic: Diagnostic)
    requires
        call_ensures(
            <Diagnostic as From<WasmError>>::from,
            (WasmError::WasmExecError(message),),
            diagnostic,
        ),
    ensures
        diagnostic.error_type@ == "WasmExecError"@,
        diagnostic.error_message@ == message@,
{
}

/// The runtime is told the kind of the error and its bare message.
pub proof fn law_a_check_error_is_diagnosed(message: String, diagnostic: Diagnostic)
    requires
        call_ensures(
            <Diagnostic as From<WrapperError>>::from,
            (WrapperError::CheckError(message),),
            diagnostic,
        ),
    ensures
        diagnostic.error_type@ == "CheckError"@,
        diagnostic.error_message@ == message@,
{
}

/// The runtime is told the kind of the error and its bare message.
pub proof fn law_a_followup_error_is_diagnosed(message: String, diagnostic: Diagnostic)
    requires
        call_ensures(
            <Diagnostic as From<WrapperError>>::from,
            (WrapperError::FollowupError(message),),
            diagnostic,
        ),
    ensures
        diagnostic.error_type@ == "FollowupError"@,
        diagnostic.error_message@ == message@,
{
}

/// A random identifier: its version digit is four and its two variant bits are
/// one and zero.
pub open spec fn is_random_id(id: u128) -> bool {
    id_digit(id, 12) == 4 && 8 <= id_digit(id, 16) < 12
}

/// A body is run with its own arguments, under the identifier that it names or
/// under a new one where it names none. One whose identifier is no text, or no
/// identifier, is not run.
pub proof fn law_a_body_asks_for_its_own_run(body: Value, request: Option<LambdaRequest>)
    requires
        call_ensures(request_of, (&body,), request),
    ensures
        match json_member(json_view(body), "id"@) {
            JsonView::Null => request matches Some(r) && is_random_id(r.exec_id),
            JsonView::Text(text) => match id_parsed(text) {
                Some(id) => request matches Some(r) && r.exec_id == id,
                None => request is None,
            },
            _ => request is None,
        },
        request matches Some(r) ==> json_view(r.args) == json_member(json_view(body), "args"@),
{
}

/// A body that is no JSON is refused as such. One that is JSON is run with its
/// own arguments, under the identifier that it names or under a new one where
/// it names none, and is refused where its identifier is none.
pub proof fn law_a_request_is_read_from_its_body(
    body: &[u8],
    r: Result<LambdaRequest, RequestError>,
)
    requires
        call_ensures(read_request, (body,), r),
    ensures
        match json_parsed(body@) {
            None => r matches Err(RequestError::InvalidJson(_)),
            Some(json) => {
                &&& match json_member(json, "id"@) {
                    JsonView::Null => r matches Ok(request) && is_random_id(request.exec_id),
                    JsonView::Text(text) => match id_parsed(text) {
                        Some(id) => r matches Ok(request) && request.exec_id == id,
                        None => r matches Err(RequestError::InvalidId),
                    },
                    _ => r matches Err(RequestError::InvalidId),
                }
                &&& r matches Ok(request) ==> json_view(request.args) == json_member(json, "args"@)
            },
        },
{
}

/// A number is the same integer in JSON.
pub proof fn law_u64_stays_the_same_number(number: u64, json: Value)
    requires
        call_ensures(<u64 as JsonInteger>::to_json, (number,), json),
    ensures
        json_view(json) == JsonView::Integer(number as int),
{
}

/// A number is the same integer in JSON.
pub proof fn law_i64_stays_the_same_number(number: i64, json: Value)
    requires
        call_ensures(<i64 as JsonInteger>::to_json, (number,), json),
    ensures
        json_view(json) == JsonView::Integer(number as int),
{
}

/// A function that was read and made ready is linked next.
pub proof fn law_setup_loads_the_function(
    handler: &mut RadicalHandler,
    read: u64,
    compile: u64,
    load: u64,
    step: SetupStep,
)
    requires
        call_ensures(
            RadicalHandler::setup_wasm_blob,
            (handler, SetupPhase::Load, SetupEvent::Loaded { read, compile, load }),
            step,
        ),
    ensures
        step is Link,
        measured(
            *old(handler), *final(handler),
            old(handler).latencies@.insert("blob_read"@, read).insert(
                "blob_compile"@,
                compile,
            ).insert("blob_load"@, load),
        ),
{
}

/// Linked imports are followed by an instance; a failure ends the setup with
/// its message.
pub proof fn law_setup_links_the_imports(
    handler: &mut RadicalHandler,
    outcome: Result<(), String>,
    link: u64,
    step: SetupStep,
)
    requires
        call_ensures(
            RadicalHandler::setup_wasm_blob,
            (handler, SetupPhase::Link, SetupEvent::Linked { outcome, link }),
            step,
        ),
    ensures
        match outcome {
            Ok(_) => step is Instantiate && measured(
                *old(handler),
                *final(handler),
                old(handler).latencies@.insert("blob_link"@, link),
            ),
            Err(message) => {
                &&& step matches SetupStep::Fail(WasmError::LinkerError(text)) && text@ == message@
                &&& untouched(*old(handler), *final(handler))
            },
        },
{
}

/// An instance makes the function ready; a failure ends the setup with its
/// message.
pub proof fn law_setup_ends_with_an_instance(
    handler: &mut RadicalHandler,
    outcome: Result<(), String>,
    instance: u64,
    total: u64,
    step: SetupStep,
)
    requires
        call_ensures(
            RadicalHandler::setup_wasm_blob,
            (handler, SetupPhase::Instance, SetupEvent::Instantiated { outcome, instance, total }),
            step,
        ),
    ensures
        match outcome {
            Ok(_) => step is Ready && measured(
                *old(handler), *final(handler),
                old(handler).latencies@.insert(
                    "instance_setup"@,
                    instance,
                ).insert("wasm_setup"@, total),
            ),
            Err(message) => {
                &&& step matches SetupStep::Fail(
                    WasmError::WasmExecError(text),
                ) && text@ == message@
                &&& untouched(*old(handler), *final(handler))
            },
        },
{
}

/// An event answers what the setup waits for.
pub open spec fn setup_fits(phase: SetupPhase, event: SetupEvent) -> bool {
    match event {
        SetupEvent::Loaded { .. } => phase is Load,
        SetupEvent::Linked { .. } => phase is Link,
        SetupEvent::Instantiated { .. } => phase is Instance,
    }
}

/// An event that the setup does not wait for changes nothing, and only such an
/// event is ignored.
pub proof fn law_setup_ignores_other_events(
    handler: &mut RadicalHandler,
    phase: SetupPhase,
    event: SetupEvent,
    step: SetupStep,
)
    requires
        call_ensures(RadicalHandler::setup_wasm_blob, (handler, phase, event), step),
    ensures
        step is Ignored <==> !setup_fits(phase, event),
        step is Ignored ==> untouched(*old(handler), *final(handler)),
{
}

/// At the edge a function that was made ready is linked next.
pub proof fn law_edge_loads_the_function(
    handler: &mut RadicalHandler,
    request: EdgeRequest,
    read: u64,
    compile: u64,
    load: u64,
    out: (EdgePhase, EdgeAction),
)
    requires
        call_ensures(
            RadicalHandler::edge_handler,
            (
                handler,
                &request,
                EdgePhase::Setup(SetupPhase::Load),
                EdgeEvent::Setup(SetupEvent::Loaded { read, compile, load }),
            ),
            out,
        ),
    ensures
        out.0 matches EdgePhase::Setup(SetupPhase::Link),
        out.1 is Link,
        measured(
            *old(handler), *final(handler),
            old(handler).latencies@.insert("blob_read"@, read).insert(
                "blob_compile"@,
                compile,
            ).insert("blob_load"@, load),
        ),
{
}

/// At the edge linked imports are followed by an instance; a failure ends the
/// execution with its message.
pub proof fn law_edge_links_the_imports(
    handler: &mut RadicalHandler,
    request: EdgeRequest,
    outcome: Result<(), String>,
    link: u64,
    out: (EdgePhase, EdgeAction),
)
    requires
        call_ensures(
            RadicalHandler::edge_handler,
            (
                handler,
                &request,
                EdgePhase::Setup(SetupPhase::Link),
                EdgeEvent::Setup(SetupEvent::Linked { outcome, link }),
            ),
            out,
        ),
    ensures
        match outcome {
            Ok(_) => {
                &&& out.0 matches EdgePhase::Setup(SetupPhase::Instance)
                &&& out.1 is Instantiate
                &&& measured(
                    *old(handler),
                    *final(handler),
                    old(handler).latencies@.insert("blob_link"@, link),
                )
            },
            Err(message) => {
                &&& out.0 is Done
                &&& out.1 matches EdgeAction::Fail(LambdaError::Wasm(WasmError::LinkerError(text)))
                    && text@ == message@
                &&& untouched(*old(handler), *final(handler))
            },
        },
{
}

/// At the edge a run is called with the length of the encoded arguments of the
/// request; an instance that cannot be made ends the execution with its
/// message.
pub proof fn law_edge_runs_with_its_arguments(
    handler: &mut RadicalHandler,
    request: EdgeRequest,
    outcome: Result<(), String>,
    instance: u64,
    total: u64,
    out: (EdgePhase, EdgeAction),
)
    requires
        call_ensures(
            RadicalHandler::edge_handler,
            (
                handler,
                &request,
                EdgePhase::Setup(SetupPhase::Instance),
                EdgeEvent::Setup(SetupEvent::Instantiated { outcome, instance, total }),
            ),
            out,
        ),
    ensures
        match outcome {
            Ok(_) => {
                &&& out.0 is Run
                &&& out.1 matches EdgeAction::RunBlob(n) && n == json_encoded(
                    json_view(request.args),
                ).len() as usize as i32
                &&& measured(
                    *old(handler), *final(handler),
                    old(handler).latencies@.insert(
                        "instance_setup"@,
                        instance,
                    ).insert("wasm_setup"@, total),
                )
            },
            Err(message) => {
                &&& out.0 is Done
                &&& out.1 matches EdgeAction::Fail(
                    LambdaError::Wasm(WasmError::WasmExecError(text)),
                )
                    && text@ == message@
                &&& untouched(*old(handler), *final(handler))
            },
        },
{
}

/// At the edge a run that gave a result is followed by the collection of its
/// writes, and its result, its reads and whether it met a stale key are kept.
pub proof fn law_edge_collects_behind_a_run(
    handler: &mut RadicalHandler,
    request: EdgeRequest,
    outcome: Result<Value, String>,
    read_keys: Vec<(String, Vec<u8>)>,
    encountered_stale: bool,
    run: u64,
    out: (EdgePhase, EdgeAction),
)
    requires
        call_ensures(
            RadicalHandler::edge_handler,
            (
                handler,
                &request,
                EdgePhase::Run,
                EdgeEvent::Ran { outcome, read_keys, encountered_stale, run },
            ),
            out,
        ),
    ensures
        match outcome {
            Ok(result) => {
                &&& out.0 matches EdgePhase::Collect(kept, reads, stale) && json_view(kept)
                    == json_view(result) && pair_views(reads@) == pair_views(read_keys@) && stale
                    == encountered_stale
                &&& out.1 is CollectWrites
                &&& measured(
                    *old(handler),
                    *final(handler),
                    old(handler).latencies@.insert("wasm_execution"@, run),
                )
            },
            Err(message) => {
                &&& out.0 is Done
                &&& out.1 matches EdgeAction::Fail(
                    LambdaError::Wasm(WasmError::WasmExecError(text)),
                )
                    && text@ == message@
                &&& untouched(*old(handler), *final(handler))
            },
        },
{
}

/// A body asks for a run with the given arguments under the given identifier,
/// and for nothing else.
pub open spec fn asks_for_run(body: JsonView, args: JsonView, exec_id: u128) -> bool {
    &&& has_fields(body, set!["args"@, "id"@])
    &&& json_member(body, "args"@) == args
    &&& json_member(body, "id"@) == JsonView::Text(id_text(exec_id))
}

/// The body that the datacenter is sent asks for the run.
proof fn lemma_asks_for_run(args: JsonView, exec_id: u128)
    ensures
        asks_for_run(dc_body(args, exec_id), args, exec_id),
{
    reveal_strlit("args");
    reveal_strlit("id");
    assert("args"@.len() == 4);
    assert("id"@.len() == 2);
    let fields = map!["args"@ => args, "id"@ => JsonView::Text(id_text(exec_id))];
    assert(fields.dom() =~= set!["args"@, "id"@]);
}

/// A run that met a stale key is repeated by the datacenter, with the arguments
/// and the identifier of the execution.
pub proof fn law_a_stale_run_is_repeated(
    handler: &mut RadicalHandler,
    request: EdgeRequest,
    result: Value,
    read_keys: Vec<(String, Vec<u8>)>,
    stale: bool,
    updates: Vec<Value>,
    collect: u64,
    out: (EdgePhase, EdgeAction),
)
    requires
        call_ensures(
            RadicalHandler::edge_handler,
            (
                handler,
                &request,
                EdgePhase::Collect(result, read_keys, stale),
                EdgeEvent::WritesCollected { updates, collect },
            ),
            out,
        ),
    ensures
        stale ==> (request.dc_url matches Some(dc_url) ==> {
            &&& out.0 is AtDc
            &&& out.1 matches EdgeAction::ExecuteAtDc { url, body } && url@ == dc_url@
                && asks_for_run(
                json_view(body),
                json_view(request.args),
                request.exec_id,
            )
        }),
        measured(
            *old(handler),
            *final(handler),
            old(handler).latencies@.insert("collect_writes"@, collect),
        ),
{
    lemma_asks_for_run(json_view(request.args), request.exec_id);
}

/// A run that met no stale key is reported to the datacenter, with its result,
/// all of its reads and writes in order, and the durations so far. Its answer
/// tells the result and these durations.
pub proof fn law_a_fresh_run_is_reported(
    handler: &mut RadicalHandler,
    request: EdgeRequest,
    result: Value,
    read_keys: Vec<(String, Vec<u8>)>,
    stale: bool,
    updates: Vec<Value>,
    collect: u64,
    out: (EdgePhase, EdgeAction),
)
    requires
        call_ensures(
            RadicalHandler::edge_handler,
            (
                handler,
                &request,
                EdgePhase::Collect(result, read_keys, stale),
                EdgeEvent::WritesCollected { updates, collect },
            ),
            out,
        ),
    ensures
        !stale ==> (request.dc_url matches Some(dc_url) ==> {
            &&& out.0 matches EdgePhase::Report(response) && short_answer(
                response,
                *final(handler),
                result,
            )
            &&& out.1 matches EdgeAction::SendResult { url, execution } && {
                &&& url@ == dc_url@ + "/execution_result"@
                &&& json_view(execution.result.result) == json_view(result)
                &&& pair_views(execution.read_keys@) == pair_views(read_keys@)
                &&& json_views(execution.write_updates@) == json_views(updates@)
                &&& execution.latencies@ == final(handler).latencies@
                &&& execution.remote_latencies@ == final(handler).remote_latencies@
            }
        }),
{
    if !stale && request.dc_url is Some {
        if let EdgePhase::Report(response) = out.0 {
            if let EdgeAction::SendResult { execution, .. } = out.1 {
                lemma_short_answer(response, execution@, *final(handler), result);
            }
        }
    }
}

/// Without the address of the datacenter an execution stops with a message,
/// whether its run met a stale key or not.
pub proof fn law_an_unknown_datacenter_stops_an_execution(
    handler: &mut RadicalHandler,
    request: EdgeRequest,
    result: Value,
    read_keys: Vec<(String, Vec<u8>)>,
    stale: bool,
    updates: Vec<Value>,
    collect: u64,
    out: (EdgePhase, EdgeAction),
)
    requires
        call_ensures(
            RadicalHandler::edge_handler,
            (
                handler,
                &request,
                EdgePhase::Collect(result, read_keys, stale),
                EdgeEvent::WritesCollected { updates, collect },
            ),
            out,
        ),
    ensures
        request.dc_url is None ==> {
            &&& out.0 is Done
            &&& out.1 matches EdgeAction::Fail(
                LambdaError::Stop(text),
            ) && text@ == "DC_URL not set"@
        },
{
}

/// The reply of the datacenter is the answer, word for word; a failure ends the
/// execution with its message.
pub proof fn law_the_datacenters_reply_is_the_answer(
    handler: &mut RadicalHandler,
    request: EdgeRequest,
    reply: Result<Value, String>,
    e2e: u64,
    out: (EdgePhase, EdgeAction),
)
    requires
        call_ensures(
            RadicalHandler::edge_handler,
            (handler, &request, EdgePhase::AtDc, EdgeEvent::DcReplied { reply, e2e }),
            out,
        ),
    ensures
        out.0 is Done,
        match reply {
            Ok(result) => {
                &&& out.1 matches EdgeAction::Respond(response) && carries(
                    response,
                    json_view(result),
                )
                &&& measured(
                    *old(handler),
                    *final(handler),
                    old(handler).latencies@.insert("e2e"@, e2e),
                )
            },
            Err(message) => {
                &&& out.1 matches EdgeAction::Fail(
                    LambdaError::Transport(text),
                ) && text@ == message@
                &&& untouched(*old(handler), *final(handler))
            },
        },
{
}

/// Behind a report that went out its answer is given as it was made; a failure
/// ends the execution with its message.
pub proof fn law_a_sent_report_is_answered(
    handler: &mut RadicalHandler,
    request: EdgeRequest,
    prepared: LambdaResponse,
    sent: Result<(), String>,
    e2e: u64,
    out: (EdgePhase, EdgeAction),
)
    requires
        call_ensures(
            RadicalHandler::edge_handler,
            (handler, &request, EdgePhase::Report(prepared), EdgeEvent::ResultSent { sent, e2e }),
            out,
        ),
    ensures
        out.0 is Done,
        match sent {
            Ok(_) => {
                &&& out.1 matches EdgeAction::Respond(response)
                    && response.status == prepared.status
                    && response.content_type@ == prepared.content_type@ && response.body@
                    == prepared.body@
                &&& measured(
                    *old(handler),
                    *final(handler),
                    old(handler).latencies@.insert("e2e"@, e2e),
                )
            },
            Err(message) => {
                &&& out.1 matches EdgeAction::Fail(
                    LambdaError::Transport(text),
                ) && text@ == message@
                &&& untouched(*old(handler), *final(handler))
            },
        },
{
}

/// An event answers what an execution at the edge waits for.
pub open spec fn edge_fits(phase: EdgePhase, event: EdgeEvent) -> bool {
    match event {
        EdgeEvent::Setup(event) => phase matches EdgePhase::Setup(setup) && setup_fits(
            setup,
            event,
        ),
        EdgeEvent::Ran { .. } => phase is Run,
        EdgeEvent::WritesCollected { .. } => phase is Collect,
        EdgeEvent::DcReplied { .. } => phase is AtDc,
        EdgeEvent::ResultSent { .. } => phase is Report,
    }
}

/// An event that an execution at the edge does not wait for changes nothing,
/// and only such an event is ignored.
pub proof fn law_edge_ignores_other_events(
    handler: &mut RadicalHandler,
    request: EdgeRequest,
    phase: EdgePhase,
    event: EdgeEvent,
    out: (EdgePhase, EdgeAction),
)
    requires
        call_ensures(RadicalHandler::edge_handler, (handler, &request, phase, event), out),
    ensures
        out.1 is Ignored <==> !edge_fits(phase, event),
        out.1 is Ignored ==> out.0@ == phase@ && untouched(*old(handler), *final(handler)),
{
}

/// The request that has the datacenter run a function again carries its
/// arguments and its identifier to the given address.
pub proof fn law_a_repeated_run_is_the_same_run(
    args: Value,
    exec_id: u128,
    dc_url: &str,
    action: EdgeAction,
)
    requires
        call_ensures(RadicalHandler::execute_at_dc, (&args, exec_id, dc_url), action),
    ensures
        action matches EdgeAction::ExecuteAtDc { url, body } && url@ == dc_url@ && asks_for_run(
            json_view(body),
            json_view(args),
            exec_id,
        ),
{
    lemma_asks_for_run(json_view(args), exec_id);
}

/// In the datacenter a function that was made ready is linked next.
pub proof fn law_dc_loads_the_function(
    handler: &mut RadicalHandler,
    args: Value,
    read: u64,
    compile: u64,
    load: u64,
    out: (DcPhase, DcAction),
)
    requires
        call_ensures(
            RadicalHandler::dc_handler,
            (
                handler,
                &args,
                DcPhase::Setup(SetupPhase::Load),
                DcEvent::Setup(SetupEvent::Loaded { read, compile, load }),
            ),
            out,
        ),
    ensures
        out.0 matches DcPhase::Setup(SetupPhase::Link),
        out.1 is Link,
        measured(
            *old(handler), *final(handler),
            old(handler).latencies@.insert("blob_read"@, read).insert(
                "blob_compile"@,
                compile,
            ).insert("blob_load"@, load),
        ),
{
}

/// In the datacenter linked imports are followed by an instance; a failure ends
/// the execution with its message.
pub proof fn law_dc_links_the_imports(
    handler: &mut RadicalHandler,
    args: Value,
    outcome: Result<(), String>,
    link: u64,
    out: (DcPhase, DcAction),
)
    requires
        call_ensures(
            RadicalHandler::dc_handler,
            (
                handler,
                &args,
                DcPhase::Setup(SetupPhase::Link),
                DcEvent::Setup(SetupEvent::Linked { outcome, link }),
            ),
            out,
        ),
    ensures
        match outcome {
            Ok(_) => {
                &&& out.0 matches DcPhase::Setup(SetupPhase::Instance)
                &&& out.1 is Instantiate
                &&& measured(
                    *old(handler),
                    *final(handler),
                    old(handler).latencies@.insert("blob_link"@, link),
                )
            },
            Err(message) => {
                &&& out.0 is Done
                &&& out.1 matches DcAction::Fail(WasmError::LinkerError(text)) && text@ == message@
                &&& untouched(*old(handler), *final(handler))
            },
        },
{
}

/// In the datacenter the recorded writes are reset before a run; an instance
/// that cannot be made ends the execution with its message.
pub proof fn law_dc_resets_before_it_runs(
    handler: &mut RadicalHandler,
    args: Value,
    outcome: Result<(), String>,
    instance: u64,
    total: u64,
    out: (DcPhase, DcAction),
)
    requires
        call_ensures(
            RadicalHandler::dc_handler,
            (
                handler,
                &args,
                DcPhase::Setup(SetupPhase::Instance),
                DcEvent::Setup(SetupEvent::Instantiated { outcome, instance, total }),
            ),
            out,
        ),
    ensures
        match outcome {
            Ok(_) => {
                &&& out.0 is Reset
                &&& out.1 is ResetWrites
                &&& measured(
                    *old(handler), *final(handler),
                    old(handler).latencies@.insert(
                        "instance_setup"@,
                        instance,
                    ).insert("wasm_setup"@, total),
                )
            },
            Err(message) => {
                &&& out.0 is Done
                &&& out.1 matches DcAction::Fail(
                    WasmError::WasmExecError(text),
                ) && text@ == message@
                &&& untouched(*old(handler), *final(handler))
            },
        },
{
}

/// In the datacenter a run is called with the length of the encoded arguments.
pub proof fn law_dc_runs_with_its_arguments(
    handler: &mut RadicalHandler,
    args: Value,
    out: (DcPhase, DcAction),
)
    requires
        call_ensures(
            RadicalHandler::dc_handler,
            (handler, &args, DcPhase::Reset, DcEvent::WritesReset),
            out,
        ),
    ensures
        out.0 is Run,
        out.1 matches DcAction::RunBlob(n)
            && n == json_encoded(json_view(args)).len() as usize as i32,
        untouched(*old(handler), *final(handler)),
{
}

/// In the datacenter a run that gave a result is followed by the collection of
/// its writes, and the result is kept.
pub proof fn law_dc_collects_behind_a_run(
    handler: &mut RadicalHandler,
    args: Value,
    outcome: Result<Value, String>,
    out: (DcPhase, DcAction),
)
    requires
        call_ensures(
            RadicalHandler::dc_handler,
            (handler, &args, DcPhase::Run, DcEvent::Ran(outcome)),
            out,
        ),
    ensures
        match outcome {
            Ok(result) => {
                &&& out.0 matches DcPhase::Collect(kept) && json_view(kept) == json_view(result)
                &&& out.1 is CollectWrites
            },
            Err(message) => {
                &&& out.0 is Done
                &&& out.1 matches DcAction::Fail(
                    WasmError::WasmExecError(text),
                ) && text@ == message@
            },
        },
        untouched(*old(handler), *final(handler)),
{
}

/// The answer of the datacenter carries the result of the run, all of its
/// writes in order and the durations of the handler, and claims no passed
/// check.
pub proof fn law_dc_answers_with_all_writes(
    handler: &mut RadicalHandler,
    args: Value,
    result: Value,
    updates: Vec<Value>,
    run: u64,
    collect: u64,
    e2e: u64,
    out: (DcPhase, DcAction),
)
    requires
        call_ensures(
            RadicalHandler::dc_handler,
            (
                handler,
                &args,
                DcPhase::Collect(result),
                DcEvent::WritesCollected { updates, run, collect, e2e },
            ),
            out,
        ),
    ensures
        out.0 is Done,
        out.1 matches DcAction::Respond(response) && full_answer(
            response,
            *final(handler),
            result,
            updates@,
            false,
        ),
        measured(
            *old(handler), *final(handler),
            old(handler).latencies@.insert("wasm_execution"@, run).insert(
                "collect_updates"@,
                collect,
            ).insert("e2e"@, e2e),
        ),
{
    if let DcAction::Respond(response) = out.1 {
        lemma_full_answer(response, *final(handler), result, updates@, false);
    }
}

/// An event answers what an execution in the datacenter waits for.
pub open spec fn dc_fits(phase: DcPhase, event: DcEvent) -> bool {
    match event {
        DcEvent::Setup(event) => phase matches DcPhase::Setup(setup) && setup_fits(setup, event),
        DcEvent::WritesReset => phase is Reset,
        DcEvent::Ran(_) => phase is Run,
        DcEvent::WritesCollected { .. } => phase is Collect,
    }
}

/// An event that an execution in the datacenter does not wait for changes
/// nothing, and only such an event is ignored.
pub proof fn law_dc_ignores_other_events(
    handler: &mut RadicalHandler,
    args: Value,
    phase: DcPhase,
    event: DcEvent,
    out: (DcPhase, DcAction),
)
    requires
        call_ensures(RadicalHandler::dc_handler, (handler, &args, phase, event), out),
    ensures
        out.1 is Ignored <==> !dc_fits(phase, event),
        out.1 is Ignored ==> out.0@ == phase@ && untouched(*old(handler), *final(handler)),
{
}

/// Whatever happens, a function at the edge is called with the length of the
/// encoded arguments of the request.
pub proof fn law_every_run_gets_the_arguments(
    handler: LambdaHandlerView,
    request: EdgeRequestView,
    events: Seq<EdgeEventView>,
    i: int,
)
    requires
        0 <= i < events.len(),
    ensures
        edge_action(handler, request, events, i) matches EdgeActionView::RunBlob(n) ==> n
            == json_encoded(request.args).len() as usize as i32,
{
}

/// Whatever happens, a function in the datacenter is called with the length of
/// the encoded arguments.
pub proof fn law_every_dc_run_gets_the_arguments(
    handler: LambdaHandlerView,
    args: JsonView,
    events: Seq<DcEventView>,
    i: int,
)
    requires
        0 <= i < events.len(),
    ensures
        dc_action(handler, args, events, i) matches DcActionView::RunBlob(n) ==> n == json_encoded(
            args,
        ).len() as usize as i32,
{
}

} // verus!
