//! The handlers of the Lambda deployment.
//!
//! As in the HTTP deployment a handler is a transition from what has happened
//! to what to do next. At the edge a function that met no stale key is reported
//! to the datacenter; one that did is run again there.

use crate::bytes::pair_views;
use crate::handler::{args_len, encode_args, outcome_view, run_view, WasmError, WasmErrorView};
use crate::http_server::option_view;
use crate::ids::{id_digit, id_parsed, id_text, new_uuid, parse_uuid, uuid_to_string};
use crate::json::{
    add_field, fields_view, json_as_str, json_clone, json_field, json_from_bool, json_from_fields,
    json_from_i64, json_from_slice, json_from_text, json_from_u64, json_from_values, json_is_null,
    json_member, json_parsed, json_text, json_to_string, json_view, json_views, no_fields, JsonView,
};
use crate::keyed::{entries_map, label_copy, KeyedMap, LabelMap};
use crate::wasm::WasmResult;
use serde_json::Value;
use vstd::prelude::*;
use vstd::std_specs::convert::FromSpecImpl;
use vstd::string::StringExecFns;

verus! {

/// Why a check or a follow-up failed.
#[derive(Debug, PartialEq)]
pub enum WrapperError {
    CheckError(String),
    FollowupError(String),
}

impl WrapperError {
    /// The text that describes the error.
    pub fn message(&self) -> (text: String)
        ensures
            text@ == match self {
                WrapperError::CheckError(message) => "check error: "@ + message@,
                WrapperError::FollowupError(message) => "followup error: "@ + message@,
            },
    {
        match self {
            WrapperError::CheckError(message) => "check error: ".to_owned().concat(
                message.as_str(),
            ),
            WrapperError::FollowupError(message) => "followup error: ".to_owned().concat(
                message.as_str(),
            ),
        }
    }
}

/// An error as the runtime reports it: its type and its bare message.
#[derive(Debug, PartialEq)]
pub struct Diagnostic {
    pub error_type: &'static str,
    pub error_message: String,
}

impl FromSpecImpl<WasmError> for Diagnostic {
    open spec fn obeys_from_spec() -> bool {
        true
    }

    open spec fn from_spec(error: WasmError) -> Diagnostic {
        match error {
            WasmError::LinkerError(message) => Diagnostic {
                error_type: "LinkerError",
                error_message: message,
            },
            WasmError::WasmExecError(message) => Diagnostic {
                error_type: "WasmExecError",
                error_message: message,
            },
        }
    }
}

impl From<WasmError> for Diagnostic {
    fn from(error: WasmError) -> (diagnostic: Self) {
        match error {
            WasmError::LinkerError(message) => Diagnostic {
                error_type: "LinkerError",
                error_message: message,
            },
            WasmError::WasmExecError(message) => Diagnostic {
                error_type: "WasmExecError",
                error_message: message,
            },
        }
    }
}

impl FromSpecImpl<WrapperError> for Diagnostic {
    open spec fn obeys_from_spec() -> bool {
        true
    }

    open spec fn from_spec(error: WrapperError) -> Diagnostic {
        match error {
            WrapperError::CheckError(message) => Diagnostic {
                error_type: "CheckError",
                error_message: message,
            },
            WrapperError::FollowupError(message) => Diagnostic {
                error_type: "FollowupError",
                error_message: message,
            },
        }
    }
}

impl From<WrapperError> for Diagnostic {
    fn from(error: WrapperError) -> (diagnostic: Self) {
        match error {
            WrapperError::CheckError(message) => Diagnostic {
                error_type: "CheckError",
                error_message: message,
            },
            WrapperError::FollowupError(message) => Diagnostic {
                error_type: "FollowupError",
                error_message: message,
            },
        }
    }
}

/// What a function is to be run with.
#[derive(Debug)]
pub struct LambdaRequest {
    pub args: Value,
    pub exec_id: u128,
}

/// A request that cannot be run.
#[derive(Debug)]
pub enum RequestError {
    /// The body is no JSON.
    InvalidJson(serde_json::Error),
    /// The identifier in the body is none.
    InvalidId,
}

/// Whether a body asks for an identifier that can be had: none at all, or a
/// text that is one.
pub open spec fn id_valid(id: JsonView) -> bool {
    match id {
        JsonView::Null => true,
        JsonView::Text(text) => id_parsed(text) is Some,
        _ => false,
    }
}

/// Whether an execution has the identifier that a body asks for, or a random
/// one where it asks for none.
pub open spec fn id_granted(id: JsonView, exec_id: u128) -> bool {
    match id {
        JsonView::Text(text) => id_parsed(text) == Some(exec_id),
        _ => id_digit(exec_id, 12) == 4 && 8 <= id_digit(exec_id, 16) < 12,
    }
}

/// What a body asks to be run. Missing arguments count as null. There is no
/// request where the identifier is none.
pub fn request_of(body: &Value) -> (request: Option<LambdaRequest>)
    ensures
        request is Some <==> id_valid(json_member(json_view(*body), "id"@)),
        request matches Some(r) ==> {
            &&& json_view(r.args) == json_member(json_view(*body), "args"@)
            &&& id_granted(json_member(json_view(*body), "id"@), r.exec_id)
        },
{
    let args: Value = json_clone(json_field(body, "args"));
    let id: &Value = json_field(body, "id");
    let exec_id: u128 = if json_is_null(id) {
        new_uuid()
    } else {
        match json_as_str(id) {
            Some(text) => match parse_uuid(text) {
                Some(exec_id) => exec_id,
                None => return None,
            },
            None => return None,
        }
    };
    Some(LambdaRequest { args, exec_id })
}

/// Reads the body of a request.
pub fn read_request(body: &[u8]) -> (r: Result<LambdaRequest, RequestError>)
    ensures
        match r {
            Ok(request) => {
                &&& json_parsed(body@) matches Some(json)
                &&& id_valid(json_member(json, "id"@))
                &&& json_view(request.args) == json_member(json, "args"@)
                &&& id_granted(json_member(json, "id"@), request.exec_id)
            },
            Err(RequestError::InvalidJson(_)) => json_parsed(body@) is None,
            Err(RequestError::InvalidId) => {
                &&& json_parsed(body@) matches Some(json)
                &&& !id_valid(json_member(json, "id"@))
            },
        },
{
    match json_from_slice(body) {
        Ok(json) => match request_of(&json) {
            Some(request) => Ok(request),
            None => Err(RequestError::InvalidId),
        },
        Err(error) => Err(RequestError::InvalidJson(error)),
    }
}

/// A number that is an integer in JSON.
pub trait JsonInteger: Copy {
    /// The integer.
    spec fn integer(self) -> int;

    /// The integer as JSON.
    fn to_json(self) -> (json: Value)
        ensures
            json_view(json) == JsonView::Integer(self.integer()),
    ;
}

impl JsonInteger for u64 {
    open spec fn integer(self) -> int {
        self as int
    }

    fn to_json(self) -> (json: Value) {
        json_from_u64(self)
    }
}

impl JsonInteger for i64 {
    open spec fn integer(self) -> int {
        self as int
    }

    fn to_json(self) -> (json: Value) {
        json_from_i64(self)
    }
}

/// Numbers under labels, as the fields of a JSON object.
pub open spec fn number_fields<V: JsonInteger>(numbers: Map<Seq<char>, V>) -> Map<
    Seq<char>,
    JsonView,
> {
    numbers.map_values(|n: V| JsonView::Integer(n.integer()))
}

/// Numbers under labels, as JSON.
pub open spec fn numbers_json<V: JsonInteger>(numbers: Map<Seq<char>, V>) -> JsonView {
    JsonView::Object(number_fields(numbers))
}

/// Makes the JSON of numbers under labels.
fn make_numbers<V: JsonInteger>(numbers: &LabelMap<V>) -> (json: Value)
    ensures
        json_view(json) == numbers_json(numbers@),
{
    let entries: &Vec<(String, V)> = numbers.entries();
    let mut fields: serde_json::Map<String, Value> = no_fields();
    let mut i: usize = 0;
    assert(fields_view(fields) =~= number_fields(entries_map(entries@.take(0))));
    while i < entries.len()
        invariant
            i <= entries.len(),
            fields_view(fields) == number_fields(entries_map(entries@.take(i as int))),
        decreases entries.len() - i,
    {
        add_field(&mut fields, entries[i].0.as_str(), entries[i].1.to_json());
        proof {
            assert(entries@.take(i + 1).drop_last() =~= entries@.take(i as int));
            assert(fields_view(fields) =~= number_fields(entries_map(entries@.take(i + 1))));
        }
        i = i + 1;
    }
    assert(entries@.take(i as int) =~= entries@);
    json_from_fields(fields)
}

/// The result of a function as JSON: an object around it.
pub open spec fn result_json(result: JsonView) -> JsonView {
    JsonView::Object(map!["result"@ => result])
}

/// Makes the JSON of the result of a function.
fn make_result(result: &WasmResult) -> (json: Value)
    ensures
        json_view(json) == result_json(json_view(result.result)),
{
    let mut fields: serde_json::Map<String, Value> = no_fields();
    add_field(&mut fields, "result", json_clone(&result.result));
    json_from_fields(fields)
}

/// The answer to a request.
#[derive(Debug, PartialEq)]
pub struct LambdaResponse {
    pub status: u16,
    pub content_type: String,
    pub body: String,
}

/// What an answer holds.
pub struct LambdaResponseView {
    pub status: u16,
    pub content_type: Seq<char>,
    pub body: Seq<char>,
}

impl View for LambdaResponse {
    type V = LambdaResponseView;

    open spec fn view(&self) -> LambdaResponseView {
        LambdaResponseView {
            status: self.status,
            content_type: self.content_type@,
            body: self.body@,
        }
    }
}

/// The answer that carries a JSON value.
pub open spec fn json_response(body: JsonView) -> LambdaResponseView {
    LambdaResponseView { status: 200, content_type: "application/json"@, body: json_text(body) }
}

/// Makes the answer that carries a JSON value.
pub fn respond_with(body: &Value) -> (response: LambdaResponse)
    ensures
        response@ == json_response(json_view(*body)),
{
    LambdaResponse {
        status: 200,
        content_type: "application/json".to_owned(),
        body: json_to_string(body),
    }
}

/// What an execution at the edge reports to the datacenter.
#[derive(Debug)]
pub struct ExecutionResult {
    pub result: WasmResult,
    pub read_keys: Vec<(String, Vec<u8>)>,
    pub write_updates: Vec<Value>,
    pub latencies: LabelMap<u64>,
    pub remote_latencies: LabelMap<i64>,
}

/// What an [`ExecutionResult`] holds.
pub struct ExecutionView {
    pub result: JsonView,
    pub read_keys: Seq<(Seq<char>, Seq<u8>)>,
    pub write_updates: Seq<JsonView>,
    pub latencies: Map<Seq<char>, u64>,
    pub remote_latencies: Map<Seq<char>, i64>,
}

impl View for ExecutionResult {
    type V = ExecutionView;

    open spec fn view(&self) -> ExecutionView {
        ExecutionView {
            result: json_view(self.result.result),
            read_keys: pair_views(self.read_keys@),
            write_updates: json_views(self.write_updates@),
            latencies: self.latencies@,
            remote_latencies: self.remote_latencies@,
        }
    }
}

/// The answer that goes with a reported execution: its result and its
/// durations, neither its reads nor its writes.
pub open spec fn reported_response(execution: ExecutionView) -> LambdaResponseView {
    json_response(
        JsonView::Object(
            map![
                "result"@ => result_json(execution.result),
                "latencies"@ => numbers_json(execution.latencies),
                "remote_latencies"@ => numbers_json(execution.remote_latencies),
            ],
        ),
    )
}

impl ExecutionResult {
    /// The answer that goes with a reported execution.
    pub fn response(&self) -> (response: LambdaResponse)
        ensures
            response@ == reported_response(self@),
    {
        let mut fields: serde_json::Map<String, Value> = no_fields();
        add_field(&mut fields, "result", make_result(&self.result));
        add_field(&mut fields, "latencies", make_numbers(&self.latencies));
        add_field(&mut fields, "remote_latencies", make_numbers(&self.remote_latencies));
        respond_with(&json_from_fields(fields))
    }
}

/// Why a request ended without an answer.
#[derive(Debug, PartialEq)]
pub enum LambdaError {
    /// The function could not be run.
    Wasm(WasmError),
    /// The datacenter could not be reached, with a message.
    Transport(String),
    /// The program is set up wrongly and stops with a message.
    Stop(String),
}

/// What a [`LambdaError`] holds.
pub enum LambdaErrorView {
    Wasm(WasmErrorView),
    Transport(Seq<char>),
    Stop(Seq<char>),
}

impl View for LambdaError {
    type V = LambdaErrorView;

    open spec fn view(&self) -> LambdaErrorView {
        match self {
            LambdaError::Wasm(error) => LambdaErrorView::Wasm(error@),
            LambdaError::Transport(message) => LambdaErrorView::Transport(message@),
            LambdaError::Stop(message) => LambdaErrorView::Stop(message@),
        }
    }
}

/// The handler of the Lambda function, without its backend and its
/// connections. Durations are those that a JSON integer holds.
#[derive(Debug)]
pub struct RadicalHandler {
    pub latencies: LabelMap<u64>,
    pub remote_latencies: LabelMap<i64>,
    pub check_url: String,
}

/// What a handler holds.
pub struct LambdaHandlerView {
    pub latencies: Map<Seq<char>, u64>,
    pub remote_latencies: Map<Seq<char>, i64>,
    pub check_url: Seq<char>,
}

impl View for RadicalHandler {
    type V = LambdaHandlerView;

    open spec fn view(&self) -> LambdaHandlerView {
        LambdaHandlerView {
            latencies: self.latencies@,
            remote_latencies: self.remote_latencies@,
            check_url: self.check_url@,
        }
    }
}

impl LambdaHandlerView {
    /// The handler with a measured duration; an earlier one under the same
    /// label is replaced.
    pub open spec fn timed(self, label: Seq<char>, millis: u64) -> LambdaHandlerView {
        LambdaHandlerView { latencies: self.latencies.insert(label, millis), ..self }
    }

    /// The answer that the handler gives.
    pub open spec fn response(
        self,
        result: JsonView,
        updates: Seq<JsonView>,
        check_status: bool,
    ) -> LambdaResponseView {
        json_response(
            JsonView::Object(
                map![
                    "result"@ => result_json(result),
                    "updates"@ => JsonView::Array(updates),
                    "latencies"@ => numbers_json(self.latencies),
                    "remote_latencies"@ => numbers_json(self.remote_latencies),
                    "check_status"@ => JsonView::Boolean(check_status),
                ],
            ),
        )
    }
}

/// What the setup of the function waits for.
#[derive(Clone, Copy, Debug)]
pub enum SetupPhase {
    /// Its code.
    Load,
    /// The linking of its imports.
    Link,
    /// Its instance.
    Instance,
}

/// What happens during the setup of the function.
#[derive(Debug)]
pub enum SetupEvent {
    /// The code was read and made ready.
    Loaded { read: u64, compile: u64, load: u64 },
    /// The imports were linked, or failed to with a message.
    Linked { outcome: Result<(), String>, link: u64 },
    /// An instance was made, or failed to with a message; the whole setup took
    /// a total time.
    Instantiated { outcome: Result<(), String>, instance: u64, total: u64 },
}

/// What a [`SetupEvent`] holds.
pub enum SetupEventView {
    Loaded { read: u64, compile: u64, load: u64 },
    Linked { outcome: Result<(), Seq<char>>, link: u64 },
    Instantiated { outcome: Result<(), Seq<char>>, instance: u64, total: u64 },
}

impl View for SetupEvent {
    type V = SetupEventView;

    open spec fn view(&self) -> SetupEventView {
        match *self {
            SetupEvent::Loaded { read, compile, load } => SetupEventView::Loaded {
                read,
                compile,
                load,
            },
            SetupEvent::Linked { outcome, link } => SetupEventView::Linked {
                outcome: outcome_view(outcome),
                link,
            },
            SetupEvent::Instantiated {
                outcome,
                instance,
                total,
            } => SetupEventView::Instantiated { outcome: outcome_view(outcome), instance, total },
        }
    }
}

/// What the setup of the function does next.
#[derive(Debug)]
pub enum SetupStep {
    Link,
    Instantiate,
    Ready,
    Fail(WasmError),
    /// The event did not fit the phase; nothing changed.
    Ignored,
}

/// What a [`SetupStep`] holds.
pub enum SetupStepView {
    Link,
    Instantiate,
    Ready,
    Fail(WasmErrorView),
    Ignored,
}

impl View for SetupStep {
    type V = SetupStepView;

    open spec fn view(&self) -> SetupStepView {
        match self {
            SetupStep::Link => SetupStepView::Link,
            SetupStep::Instantiate => SetupStepView::Instantiate,
            SetupStep::Ready => SetupStepView::Ready,
            SetupStep::Fail(error) => SetupStepView::Fail(error@),
            SetupStep::Ignored => SetupStepView::Ignored,
        }
    }
}

/// The setup of the function: load it, link its imports, make an instance.
pub open spec fn setup_next(
    handler: LambdaHandlerView,
    phase: SetupPhase,
    event: SetupEventView,
) -> (LambdaHandlerView, SetupStepView) {
    match (phase, event) {
        (SetupPhase::Load, SetupEventView::Loaded { read, compile, load }) => (
            handler.timed("blob_read"@, read).timed("blob_compile"@, compile).timed(
                "blob_load"@,
                load,
            ),
            SetupStepView::Link,
        ),
        (SetupPhase::Link, SetupEventView::Linked { outcome, link }) => match outcome {
            Ok(_) => (handler.timed("blob_link"@, link), SetupStepView::Instantiate),
            Err(message) => (handler, SetupStepView::Fail(WasmErrorView::LinkerError(message))),
        },
        (
            SetupPhase::Instance,
            SetupEventView::Instantiated { outcome, instance, total },
        ) => match outcome {
            Ok(_) => (
                handler.timed("instance_setup"@, instance).timed("wasm_setup"@, total),
                SetupStepView::Ready,
            ),
            Err(message) => (handler, SetupStepView::Fail(WasmErrorView::WasmExecError(message))),
        },
        _ => (handler, SetupStepView::Ignored),
    }
}

impl RadicalHandler {
    /// A handler that has measured nothing yet.
    pub fn new(check_url: String) -> (handler: Self)
        ensures
            handler@ == (LambdaHandlerView {
                latencies: Map::empty(),
                remote_latencies: Map::empty(),
                check_url: check_url@,
            }),
    {
        RadicalHandler { latencies: KeyedMap::new(), remote_latencies: KeyedMap::new(), check_url }
    }

    /// Notes a measured duration under a label.
    pub fn add_latency(&mut self, label: &str, millis: u64)
        ensures
            final(self)@ == old(self)@.timed(label@, millis),
    {
        self.latencies.insert(label.to_owned(), millis);
    }

    /// Makes the answer, with the durations measured so far.
    pub fn construct_response(
        &self,
        result: WasmResult,
        updates: Vec<Value>,
        check_status: bool,
    ) -> (response: LambdaResponse)
        ensures
            response@ == self@.response(
                json_view(result.result),
                json_views(updates@),
                check_status,
            ),
    {
        let mut fields: serde_json::Map<String, Value> = no_fields();
        add_field(&mut fields, "result", make_result(&result));
        add_field(&mut fields, "updates", json_from_values(updates));
        add_field(&mut fields, "latencies", make_numbers(&self.latencies));
        add_field(&mut fields, "remote_latencies", make_numbers(&self.remote_latencies));
        add_field(&mut fields, "check_status", json_from_bool(check_status));
        respond_with(&json_from_fields(fields))
    }

    /// The setup of the function: takes what has happened, says what to do
    /// next.
    pub fn setup_wasm_blob(&mut self, phase: SetupPhase, event: SetupEvent) -> (step: SetupStep)
        ensures
            (final(self)@, step@) == setup_next(old(self)@, phase, event@),
    {
        match (phase, event) {
            (SetupPhase::Load, SetupEvent::Loaded { read, compile, load }) => {
                self.add_latency("blob_read", read);
                self.add_latency("blob_compile", compile);
                self.add_latency("blob_load", load);
                SetupStep::Link
            },
            (SetupPhase::Link, SetupEvent::Linked { outcome, link }) => match outcome {
                Ok(_) => {
                    self.add_latency("blob_link", link);
                    SetupStep::Instantiate
                },
                Err(message) => SetupStep::Fail(WasmError::LinkerError(message)),
            },
            (
                SetupPhase::Instance,
                SetupEvent::Instantiated { outcome, instance, total },
            ) => match outcome {
                Ok(_) => {
                    self.add_latency("instance_setup", instance);
                    self.add_latency("wasm_setup", total);
                    SetupStep::Ready
                },
                Err(message) => SetupStep::Fail(WasmError::WasmExecError(message)),
            },
            _ => SetupStep::Ignored,
        }
    }
}

/// What the function is to be run with at the edge, and where the datacenter
/// is, if that is known.
#[derive(Debug)]
pub struct EdgeRequest {
    pub args: Value,
    pub exec_id: u128,
    pub dc_url: Option<String>,
}

/// What an [`EdgeRequest`] holds.
pub struct EdgeRequestView {
    pub args: JsonView,
    pub exec_id: u128,
    pub dc_url: Option<Seq<char>>,
}

impl View for EdgeRequest {
    type V = EdgeRequestView;

    open spec fn view(&self) -> EdgeRequestView {
        EdgeRequestView {
            args: json_view(self.args),
            exec_id: self.exec_id,
            dc_url: option_view(self.dc_url),
        }
    }
}

/// What an execution at the edge waits for.
#[derive(Debug)]
pub enum EdgePhase {
    /// The setup of the function.
    Setup(SetupPhase),
    /// The run of the function.
    Run,
    /// The recorded writes, after a run with a result, with its reads and with
    /// whether one of them was stale.
    Collect(Value, Vec<(String, Vec<u8>)>, bool),
    /// The answer of the datacenter, which runs the function again.
    AtDc,
    /// The report to the datacenter, with the answer that follows it.
    Report(LambdaResponse),
    /// Nothing: the execution is over.
    Done,
}

/// What an [`EdgePhase`] holds.
pub enum EdgePhaseView {
    Setup(SetupPhase),
    Run,
    Collect(JsonView, Seq<(Seq<char>, Seq<u8>)>, bool),
    AtDc,
    Report(LambdaResponseView),
    Done,
}

impl View for EdgePhase {
    type V = EdgePhaseView;

    open spec fn view(&self) -> EdgePhaseView {
        match *self {
            EdgePhase::Setup(phase) => EdgePhaseView::Setup(phase),
            EdgePhase::Run => EdgePhaseView::Run,
            EdgePhase::Collect(result, read_keys, stale) => EdgePhaseView::Collect(
                json_view(result),
                pair_views(read_keys@),
                stale,
            ),
            EdgePhase::AtDc => EdgePhaseView::AtDc,
            EdgePhase::Report(response) => EdgePhaseView::Report(response@),
            EdgePhase::Done => EdgePhaseView::Done,
        }
    }
}

/// What happens during an execution at the edge.
#[derive(Debug)]
pub enum EdgeEvent {
    Setup(SetupEvent),
    /// The function ran, or failed with a message; the keys that it read, and
    /// whether one of them was stale.
    Ran {
        outcome: Result<Value, String>,
        read_keys: Vec<(String, Vec<u8>)>,
        encountered_stale: bool,
        run: u64,
    },
    /// The recorded writes were collected.
    WritesCollected { updates: Vec<Value>, collect: u64 },
    /// The datacenter answered, or could not be reached, with a message.
    DcReplied { reply: Result<Value, String>, e2e: u64 },
    /// The report went out, or failed to with a message.
    ResultSent { sent: Result<(), String>, e2e: u64 },
}

/// What an [`EdgeEvent`] holds.
pub enum EdgeEventView {
    Setup(SetupEventView),
    Ran {
        outcome: Result<JsonView, Seq<char>>,
        read_keys: Seq<(Seq<char>, Seq<u8>)>,
        encountered_stale: bool,
        run: u64,
    },
    WritesCollected { updates: Seq<JsonView>, collect: u64 },
    DcReplied { reply: Result<JsonView, Seq<char>>, e2e: u64 },
    ResultSent { sent: Result<(), Seq<char>>, e2e: u64 },
}

impl View for EdgeEvent {
    type V = EdgeEventView;

    open spec fn view(&self) -> EdgeEventView {
        match *self {
            EdgeEvent::Setup(event) => EdgeEventView::Setup(event@),
            EdgeEvent::Ran {
                outcome,
                read_keys,
                encountered_stale,
                run,
            } => EdgeEventView::Ran {
                outcome: run_view(outcome),
                read_keys: pair_views(read_keys@),
                encountered_stale,
                run,
            },
            EdgeEvent::WritesCollected { updates, collect } => EdgeEventView::WritesCollected {
                updates: json_views(updates@),
                collect,
            },
            EdgeEvent::DcReplied { reply, e2e } => EdgeEventView::DcReplied {
                reply: run_view(reply),
                e2e,
            },
            EdgeEvent::ResultSent { sent, e2e } => EdgeEventView::ResultSent {
                sent: outcome_view(sent),
                e2e,
            },
        }
    }
}

/// What an execution at the edge does next.
#[derive(Debug)]
pub enum EdgeAction {
    Link,
    Instantiate,
    /// Call the function.
    RunBlob(i32),
    CollectWrites,
    /// Post a body to the datacenter and take its answer.
    ExecuteAtDc { url: String, body: Value },
    /// Post a report to the datacenter.
    SendResult { url: String, execution: ExecutionResult },
    Respond(LambdaResponse),
    Fail(LambdaError),
    /// The event did not fit the phase; nothing changed.
    Ignored,
}

/// What an [`EdgeAction`] holds.
pub enum EdgeActionView {
    Link,
    Instantiate,
    RunBlob(i32),
    CollectWrites,
    ExecuteAtDc { url: Seq<char>, body: JsonView },
    SendResult { url: Seq<char>, execution: ExecutionView },
    Respond(LambdaResponseView),
    Fail(LambdaErrorView),
    Ignored,
}

impl View for EdgeAction {
    type V = EdgeActionView;

    open spec fn view(&self) -> EdgeActionView {
        match *self {
            EdgeAction::Link => EdgeActionView::Link,
            EdgeAction::Instantiate => EdgeActionView::Instantiate,
            EdgeAction::RunBlob(args_len) => EdgeActionView::RunBlob(args_len),
            EdgeAction::CollectWrites => EdgeActionView::CollectWrites,
            EdgeAction::ExecuteAtDc { url, body } => EdgeActionView::ExecuteAtDc {
                url: url@,
                body: json_view(body),
            },
            EdgeAction::SendResult { url, execution } => EdgeActionView::SendResult {
                url: url@,
                execution: execution@,
            },
            EdgeAction::Respond(response) => EdgeActionView::Respond(response@),
            EdgeAction::Fail(error) => EdgeActionView::Fail(error@),
            EdgeAction::Ignored => EdgeActionView::Ignored,
        }
    }
}

/// What the datacenter is sent to run the function again: its arguments and
/// the identifier of the execution.
pub open spec fn dc_body(args: JsonView, exec_id: u128) -> JsonView {
    JsonView::Object(map!["args"@ => args, "id"@ => JsonView::Text(id_text(exec_id))])
}

/// What follows a run whose writes were collected: with a stale read the
/// datacenter runs the function again, else it gets a report. Neither can be
/// done where the datacenter is unknown.
pub open spec fn edge_collected(
    handler: LambdaHandlerView,
    request: EdgeRequestView,
    result: JsonView,
    read_keys: Seq<(Seq<char>, Seq<u8>)>,
    stale: bool,
    updates: Seq<JsonView>,
) -> (LambdaHandlerView, EdgePhaseView, EdgeActionView) {
    match request.dc_url {
        None => (
            handler,
            EdgePhaseView::Done,
            EdgeActionView::Fail(LambdaErrorView::Stop("DC_URL not set"@)),
        ),
        Some(url) => if stale {
            (
                handler,
                EdgePhaseView::AtDc,
                EdgeActionView::ExecuteAtDc { url, body: dc_body(request.args, request.exec_id) },
            )
        } else {
            let execution = ExecutionView {
                result,
                read_keys,
                write_updates: updates,
                latencies: handler.latencies,
                remote_latencies: handler.remote_latencies,
            };
            (
                handler,
                EdgePhaseView::Report(reported_response(execution)),
                EdgeActionView::SendResult { url: url + "/execution_result"@, execution },
            )
        },
    }
}

/// The setup as a part of an execution at the edge.
pub open spec fn edge_setup_next(
    handler: LambdaHandlerView,
    args: JsonView,
    phase: SetupPhase,
    event: SetupEventView,
) -> (LambdaHandlerView, EdgePhaseView, EdgeActionView) {
    let (after, step) = setup_next(handler, phase, event);
    match step {
        SetupStepView::Link => (
            after,
            EdgePhaseView::Setup(SetupPhase::Link),
            EdgeActionView::Link,
        ),
        SetupStepView::Instantiate => (
            after,
            EdgePhaseView::Setup(SetupPhase::Instance),
            EdgeActionView::Instantiate,
        ),
        SetupStepView::Ready => (
            after,
            EdgePhaseView::Run,
            EdgeActionView::RunBlob(args_len(args)),
        ),
        SetupStepView::Fail(error) => (
            after,
            EdgePhaseView::Done,
            EdgeActionView::Fail(LambdaErrorView::Wasm(error)),
        ),
        SetupStepView::Ignored => (after, EdgePhaseView::Setup(phase), EdgeActionView::Ignored),
    }
}

/// One step of an execution at the edge.
pub open spec fn edge_next(
    handler: LambdaHandlerView,
    request: EdgeRequestView,
    phase: EdgePhaseView,
    event: EdgeEventView,
) -> (LambdaHandlerView, EdgePhaseView, EdgeActionView) {
    match (phase, event) {
        (EdgePhaseView::Setup(setup), EdgeEventView::Setup(setup_event)) => edge_setup_next(
            handler,
            request.args,
            setup,
            setup_event,
        ),
        (
            EdgePhaseView::Run,
            EdgeEventView::Ran { outcome, read_keys, encountered_stale, run },
        ) => match outcome {
            Ok(result) => (
                handler.timed("wasm_execution"@, run),
                EdgePhaseView::Collect(result, read_keys, encountered_stale),
                EdgeActionView::CollectWrites,
            ),
            Err(message) => (
                handler,
                EdgePhaseView::Done,
                EdgeActionView::Fail(
                    LambdaErrorView::Wasm(WasmErrorView::WasmExecError(message)),
                ),
            ),
        },
        (
            EdgePhaseView::Collect(result, read_keys, stale),
            EdgeEventView::WritesCollected { updates, collect },
        ) => edge_collected(
            handler.timed("collect_writes"@, collect),
            request,
            result,
            read_keys,
            stale,
            updates,
        ),
        (EdgePhaseView::AtDc, EdgeEventView::DcReplied { reply, e2e }) => match reply {
            Ok(result) => (
                handler.timed("e2e"@, e2e),
                EdgePhaseView::Done,
                EdgeActionView::Respond(json_response(result)),
            ),
            Err(message) => (
                handler,
                EdgePhaseView::Done,
                EdgeActionView::Fail(LambdaErrorView::Transport(message)),
            ),
        },
        (EdgePhaseView::Report(response), EdgeEventView::ResultSent { sent, e2e }) => match sent {
            Ok(_) => (
                handler.timed("e2e"@, e2e),
                EdgePhaseView::Done,
                EdgeActionView::Respond(response),
            ),
            Err(message) => (
                handler,
                EdgePhaseView::Done,
                EdgeActionView::Fail(LambdaErrorView::Transport(message)),
            ),
        },
        _ => (handler, phase, EdgeActionView::Ignored),
    }
}

impl RadicalHandler {
    /// The request that has the datacenter run the function again. The body
    /// is one that the datacenter reads the same arguments and the same
    /// identifier from.
    pub fn execute_at_dc(args: &Value, exec_id: u128, dc_url: &str) -> (action: EdgeAction)
        ensures
            action@ == (EdgeActionView::ExecuteAtDc {
                url: dc_url@,
                body: dc_body(json_view(*args), exec_id),
            }),
            action matches EdgeAction::ExecuteAtDc { body, .. } ==> {
                &&& json_member(json_view(body), "args"@) == json_view(*args)
                &&& id_valid(json_member(json_view(body), "id"@))
                &&& id_granted(json_member(json_view(body), "id"@), exec_id)
            },
    {
        proof {
            reveal_strlit("args");
            reveal_strlit("id");
            assert("args"@.len() == 4);
            assert("id"@.len() == 2);
        }
        let mut fields: serde_json::Map<String, Value> = no_fields();
        add_field(&mut fields, "args", json_clone(args));
        add_field(&mut fields, "id", json_from_text(uuid_to_string(exec_id)));
        EdgeAction::ExecuteAtDc { url: dc_url.to_owned(), body: json_from_fields(fields) }
    }

    /// The setup as a part of an execution at the edge.
    fn edge_setup(&mut self, args: &Value, phase: SetupPhase, event: SetupEvent) -> (out: (
        EdgePhase,
        EdgeAction,
    ))
        ensures
            (final(self)@, out.0@, out.1@) == edge_setup_next(
                old(self)@,
                json_view(*args),
                phase,
                event@,
            ),
    {
        match self.setup_wasm_blob(phase, event) {
            SetupStep::Link => (EdgePhase::Setup(SetupPhase::Link), EdgeAction::Link),
            SetupStep::Instantiate => (
                EdgePhase::Setup(SetupPhase::Instance),
                EdgeAction::Instantiate,
            ),
            SetupStep::Ready => {
                let text: Vec<u8> = encode_args(args);
                (EdgePhase::Run, EdgeAction::RunBlob(text.len() as i32))
            },
            SetupStep::Fail(error) => (
                EdgePhase::Done,
                EdgeAction::Fail(LambdaError::Wasm(error)),
            ),
            SetupStep::Ignored => (EdgePhase::Setup(phase), EdgeAction::Ignored),
        }
    }

    /// Acts on the end of a run.
    fn edge_collect(
        &self,
        request: &EdgeRequest,
        result: Value,
        read_keys: Vec<(String, Vec<u8>)>,
        stale: bool,
        updates: Vec<Value>,
    ) -> (out: (EdgePhase, EdgeAction))
        ensures
            (self@, out.0@, out.1@) == edge_collected(
                self@,
                request@,
                json_view(result),
                pair_views(read_keys@),
                stale,
                json_views(updates@),
            ),
    {
        match &request.dc_url {
            None => (
                EdgePhase::Done,
                EdgeAction::Fail(LambdaError::Stop("DC_URL not set".to_owned())),
            ),
            Some(url) => {
                if stale {
                    (
                        EdgePhase::AtDc,
                        RadicalHandler::execute_at_dc(
                            &request.args,
                            request.exec_id,
                            url.as_str(),
                        ),
                    )
                } else {
                    let execution: ExecutionResult = ExecutionResult {
                        result: WasmResult { result },
                        read_keys,
                        write_updates: updates,
                        latencies: label_copy(&self.latencies),
                        remote_latencies: label_copy(&self.remote_latencies),
                    };
                    let response: LambdaResponse = execution.response();
                    (
                        EdgePhase::Report(response),
                        EdgeAction::SendResult {
                            url: url.clone().concat("/execution_result"),
                            execution,
                        },
                    )
                }
            },
        }
    }

    /// An execution at the edge: takes what has happened, says what to do next.
    /// A run that met a stale key leaves nothing behind but the request to run
    /// the function again in the datacenter.
    pub fn edge_handler(&mut self, request: &EdgeRequest, phase: EdgePhase, event: EdgeEvent)
        -> (out: (EdgePhase, EdgeAction))
        ensures
            (final(self)@, out.0@, out.1@) == edge_next(old(self)@, request@, phase@, event@),
    {
        match (phase, event) {
            (EdgePhase::Setup(setup), EdgeEvent::Setup(setup_event)) => self.edge_setup(
                &request.args,
                setup,
                setup_event,
            ),
            (
                EdgePhase::Run,
                EdgeEvent::Ran { outcome, read_keys, encountered_stale, run },
            ) => match outcome {
                Ok(result) => {
                    self.add_latency("wasm_execution", run);
                    (
                        EdgePhase::Collect(result, read_keys, encountered_stale),
                        EdgeAction::CollectWrites,
                    )
                },
                Err(message) => (
                    EdgePhase::Done,
                    EdgeAction::Fail(LambdaError::Wasm(WasmError::WasmExecError(message))),
                ),
            },
            (
                EdgePhase::Collect(result, read_keys, stale),
                EdgeEvent::WritesCollected { updates, collect },
            ) => {
                self.add_latency("collect_writes", collect);
                self.edge_collect(request, result, read_keys, stale, updates)
            },
            (EdgePhase::AtDc, EdgeEvent::DcReplied { reply, e2e }) => match reply {
                Ok(result) => {
                    self.add_latency("e2e", e2e);
                    (EdgePhase::Done, EdgeAction::Respond(respond_with(&result)))
                },
                Err(message) => (
                    EdgePhase::Done,
                    EdgeAction::Fail(LambdaError::Transport(message)),
                ),
            },
            (EdgePhase::Report(response), EdgeEvent::ResultSent { sent, e2e }) => match sent {
                Ok(_) => {
                    self.add_latency("e2e", e2e);
                    (EdgePhase::Done, EdgeAction::Respond(response))
                },
                Err(message) => (
                    EdgePhase::Done,
                    EdgeAction::Fail(LambdaError::Transport(message)),
                ),
            },
            (phase, _) => (phase, EdgeAction::Ignored),
        }
    }
}

/// The handler and the phase after some events, from the start on.
pub open spec fn edge_state(
    handler: LambdaHandlerView,
    request: EdgeRequestView,
    events: Seq<EdgeEventView>,
) -> (LambdaHandlerView, EdgePhaseView)
    decreases events.len(),
{
    if events.len() == 0 {
        (handler, EdgePhaseView::Setup(SetupPhase::Load))
    } else {
        let (before, phase) = edge_state(handler, request, events.drop_last());
        let (after, next, _) = edge_next(before, request, phase, events.last());
        (after, next)
    }
}

/// The action that answers one of the events.
pub open spec fn edge_action(
    handler: LambdaHandlerView,
    request: EdgeRequestView,
    events: Seq<EdgeEventView>,
    i: int,
) -> EdgeActionView {
    let (before, phase) = edge_state(handler, request, events.take(i));
    edge_next(before, request, phase, events[i]).2
}

/// The event reports a run with a result, with its reads, that met a stale key
/// or did not.
pub open spec fn is_run(
    event: EdgeEventView,
    result: JsonView,
    reads: Seq<(Seq<char>, Seq<u8>)>,
    stale: bool,
) -> bool {
    event matches EdgeEventView::Ran { outcome: Ok(r), read_keys, encountered_stale, .. } && r
        == result && read_keys == reads && encountered_stale == stale
}

/// The function ran with a result and its reads, and met a stale key or did
/// not.
pub open spec fn has_run(
    events: Seq<EdgeEventView>,
    result: JsonView,
    reads: Seq<(Seq<char>, Seq<u8>)>,
    stale: bool,
) -> bool {
    exists|j: int| 0 <= j < events.len() && is_run(#[trigger] events[j], result, reads, stale)
}

/// The event reports a run that met a stale key.
pub open spec fn is_stale_run(event: EdgeEventView) -> bool {
    event matches EdgeEventView::Ran { outcome: Ok(_), encountered_stale, .. } && encountered_stale
}

/// The function ran and met a stale key.
pub open spec fn has_stale_run(events: Seq<EdgeEventView>) -> bool {
    exists|j: int| 0 <= j < events.len() && is_stale_run(#[trigger] events[j])
}

/// The action reports an execution, and an answer goes with it.
pub open spec fn is_report(action: EdgeActionView, response: LambdaResponseView) -> bool {
    action matches EdgeActionView::SendResult { execution, .. } && response == reported_response(
        execution,
    )
}

/// An execution was reported, and an answer goes with it.
pub open spec fn has_reported(
    handler: LambdaHandlerView,
    request: EdgeRequestView,
    events: Seq<EdgeEventView>,
    response: LambdaResponseView,
) -> bool {
    exists|j: int|
        0 <= j < events.len() && is_report(
            #[trigger] edge_action(handler, request, events, j),
            response,
        )
}

/// What a phase tells about the events before it.
spec fn phase_explained(
    handler: LambdaHandlerView,
    request: EdgeRequestView,
    events: Seq<EdgeEventView>,
) -> bool {
    match edge_state(handler, request, events).1 {
        EdgePhaseView::Collect(result, reads, stale) => has_run(events, result, reads, stale),
        EdgePhaseView::AtDc => has_stale_run(events),
        EdgePhaseView::Report(response) => has_reported(handler, request, events, response),
        _ => true,
    }
}

/// Every phase tells the truth about the events before it.
proof fn lemma_phase_explained(
    handler: LambdaHandlerView,
    request: EdgeRequestView,
    events: Seq<EdgeEventView>,
)
    ensures
        phase_explained(handler, request, events),
    decreases events.len(),
{
    if events.len() > 0 {
        let n = events.len() - 1;
        let rest = events.drop_last();
        assert(rest =~= events.take(n));
        lemma_phase_explained(handler, request, rest);
        let (before, phase) = edge_state(handler, request, rest);
        let (after, next, action) = edge_next(before, request, phase, events.last());
        assert(action == edge_action(handler, request, events, n));
        match phase {
            EdgePhaseView::Collect(result, reads, stale) => {
                let j = choose|j: int|
                    0 <= j < rest.len() && is_run(#[trigger] rest[j], result, reads, stale);
                assert(is_run(events[j], result, reads, stale));
                if stale {
                    assert(is_stale_run(events[j]));
                }
                if next is Report {
                    assert(is_report(
                        edge_action(handler, request, events, n),
                        next->Report_0,
                    ));
                }
            },
            EdgePhaseView::AtDc => {
                let j = choose|j: int| 0 <= j < rest.len() && is_stale_run(#[trigger] rest[j]);
                assert(is_stale_run(events[j]));
            },
            EdgePhaseView::Report(response) => {
                let j = choose|j: int|
                    0 <= j < rest.len() && is_report(
                        #[trigger] edge_action(handler, request, rest, j),
                        response,
                    );
                assert(rest.take(j) =~= events.take(j));
                assert(is_report(edge_action(handler, request, events, j), response));
            },
            EdgePhaseView::Run => {
                if let EdgeEventView::Ran {
                    outcome: Ok(result),
                    read_keys,
                    encountered_stale,
                    ..
                } = events.last() {
                    assert(is_run(events[n], result, read_keys, encountered_stale));
                }
            },
            _ => {},
        }
    }
}

/// Whatever happens, only a run that met no stale key is reported to the
/// datacenter. The report holds the result and the reads of that run and the
/// writes that were collected for it.
pub proof fn law_only_fresh_runs_are_reported(
    handler: LambdaHandlerView,
    request: EdgeRequestView,
    events: Seq<EdgeEventView>,
    i: int,
)
    requires
        0 <= i < events.len(),
        edge_action(handler, request, events, i) is SendResult,
    ensures
        ({
            let execution = edge_action(handler, request, events, i)->SendResult_execution;
            &&& has_run(events.take(i), execution.result, execution.read_keys, false)
            &&& events[i] matches EdgeEventView::WritesCollected { updates, .. } && updates
                == execution.write_updates
            &&& request.dc_url matches Some(url) && edge_action(
                handler,
                request,
                events,
                i,
            )->SendResult_url == url + "/execution_result"@
        }),
{
    lemma_phase_explained(handler, request, events.take(i));
}

/// Whatever happens, the datacenter is asked to run the function again only
/// after a run that met a stale key, and with the arguments and the identifier
/// of this execution.
pub proof fn law_only_stale_runs_are_repeated(
    handler: LambdaHandlerView,
    request: EdgeRequestView,
    events: Seq<EdgeEventView>,
    i: int,
)
    requires
        0 <= i < events.len(),
        edge_action(handler, request, events, i) is ExecuteAtDc,
    ensures
        has_stale_run(events.take(i)),
        edge_action(handler, request, events, i)->ExecuteAtDc_body == dc_body(
            request.args,
            request.exec_id,
        ),
        request.dc_url == Some(edge_action(handler, request, events, i)->ExecuteAtDc_url),
{
    lemma_phase_explained(handler, request, events.take(i));
    let (_, phase) = edge_state(handler, request, events.take(i));
    let prefix = events.take(i);
    let j = choose|j: int|
        0 <= j < prefix.len() && is_run(
            #[trigger] prefix[j],
            phase->Collect_0,
            phase->Collect_1,
            true,
        );
    assert(is_stale_run(prefix[j]));
}

/// Whatever happens, an answer is either the datacenter's own, word for word,
/// after a run that met a stale key, or the one that goes with an execution
/// that was reported before.
pub proof fn law_answer_is_the_datacenters_or_reported(
    handler: LambdaHandlerView,
    request: EdgeRequestView,
    events: Seq<EdgeEventView>,
    i: int,
)
    requires
        0 <= i < events.len(),
        edge_action(handler, request, events, i) is Respond,
    ensures
        match events[i] {
            EdgeEventView::DcReplied { reply: Ok(result), .. } => {
                &&& has_stale_run(events.take(i))
                &&& edge_action(handler, request, events, i)->Respond_0 == json_response(result)
            },
            EdgeEventView::ResultSent { sent: Ok(_), .. } => has_reported(
                handler,
                request,
                events.take(i),
                edge_action(handler, request, events, i)->Respond_0,
            ),
            _ => false,
        },
{
    lemma_phase_explained(handler, request, events.take(i));
}

/// Once an execution is over, its phase and its durations stay as they are.
proof fn lemma_edge_done_stays(
    handler: LambdaHandlerView,
    request: EdgeRequestView,
    events: Seq<EdgeEventView>,
    n: int,
)
    requires
        0 <= n <= events.len(),
        edge_state(handler, request, events.take(n)).1 is Done,
    ensures
        edge_state(handler, request, events) == edge_state(handler, request, events.take(n)),
    decreases events.len(),
{
    if n == events.len() {
        assert(events.take(n) =~= events);
    } else {
        let rest = events.drop_last();
        assert(rest.take(n) =~= events.take(n));
        lemma_edge_done_stays(handler, request, rest, n);
    }
}

/// An execution ends once: behind an answer or an error there is no further
/// action, whatever happens, and nothing is measured any more.
pub proof fn law_execution_ends_once(
    handler: LambdaHandlerView,
    request: EdgeRequestView,
    events: Seq<EdgeEventView>,
    i: int,
    j: int,
)
    requires
        0 <= i < j < events.len(),
        edge_action(handler, request, events, i) is Respond || edge_action(
            handler,
            request,
            events,
            i,
        ) is Fail,
    ensures
        edge_action(handler, request, events, j) is Ignored,
        edge_state(handler, request, events.take(j)) == edge_state(
            handler,
            request,
            events.take(i + 1),
        ),
{
    assert(events.take(i + 1).drop_last() =~= events.take(i));
    let prefix = events.take(j);
    assert(prefix.take(i + 1) =~= events.take(i + 1));
    lemma_edge_done_stays(handler, request, prefix, i + 1);
}

/// What an execution in the datacenter waits for.
#[derive(Debug)]
pub enum DcPhase {
    Setup(SetupPhase),
    /// The reset of the recorded writes.
    Reset,
    /// The run of the function.
    Run,
    /// The recorded writes.
    Collect(Value),
    Done,
}

/// What a [`DcPhase`] holds.
pub enum DcPhaseView {
    Setup(SetupPhase),
    Reset,
    Run,
    Collect(JsonView),
    Done,
}

impl View for DcPhase {
    type V = DcPhaseView;

    open spec fn view(&self) -> DcPhaseView {
        match *self {
            DcPhase::Setup(phase) => DcPhaseView::Setup(phase),
            DcPhase::Reset => DcPhaseView::Reset,
            DcPhase::Run => DcPhaseView::Run,
            DcPhase::Collect(result) => DcPhaseView::Collect(json_view(result)),
            DcPhase::Done => DcPhaseView::Done,
        }
    }
}

/// What happens during an execution in the datacenter.
#[derive(Debug)]
pub enum DcEvent {
    Setup(SetupEvent),
    /// The recorded writes were reset.
    WritesReset,
    /// The function ran, or failed with a message.
    Ran(Result<Value, String>),
    /// The recorded writes were collected.
    WritesCollected { updates: Vec<Value>, run: u64, collect: u64, e2e: u64 },
}

/// What a [`DcEvent`] holds.
pub enum DcEventView {
    Setup(SetupEventView),
    WritesReset,
    Ran(Result<JsonView, Seq<char>>),
    WritesCollected { updates: Seq<JsonView>, run: u64, collect: u64, e2e: u64 },
}

impl View for DcEvent {
    type V = DcEventView;

    open spec fn view(&self) -> DcEventView {
        match *self {
            DcEvent::Setup(event) => DcEventView::Setup(event@),
            DcEvent::WritesReset => DcEventView::WritesReset,
            DcEvent::Ran(outcome) => DcEventView::Ran(run_view(outcome)),
            DcEvent::WritesCollected {
                updates,
                run,
                collect,
                e2e,
            } => DcEventView::WritesCollected { updates: json_views(updates@), run, collect, e2e },
        }
    }
}

/// What an execution in the datacenter does next.
#[derive(Debug)]
pub enum DcAction {
    Link,
    Instantiate,
    ResetWrites,
    /// Call the function.
    RunBlob(i32),
    CollectWrites,
    Respond(LambdaResponse),
    Fail(WasmError),
    /// The event did not fit the phase; nothing changed.
    Ignored,
}

/// What a [`DcAction`] holds.
pub enum DcActionView {
    Link,
    Instantiate,
    ResetWrites,
    RunBlob(i32),
    CollectWrites,
    Respond(LambdaResponseView),
    Fail(WasmErrorView),
    Ignored,
}

impl View for DcAction {
    type V = DcActionView;

    open spec fn view(&self) -> DcActionView {
        match *self {
            DcAction::Link => DcActionView::Link,
            DcAction::Instantiate => DcActionView::Instantiate,
            DcAction::ResetWrites => DcActionView::ResetWrites,
            DcAction::RunBlob(args_len) => DcActionView::RunBlob(args_len),
            DcAction::CollectWrites => DcActionView::CollectWrites,
            DcAction::Respond(response) => DcActionView::Respond(response@),
            DcAction::Fail(error) => DcActionView::Fail(error@),
            DcAction::Ignored => DcActionView::Ignored,
        }
    }
}

/// One step of an execution in the datacenter.
pub open spec fn dc_next(
    handler: LambdaHandlerView,
    args: JsonView,
    phase: DcPhaseView,
    event: DcEventView,
) -> (LambdaHandlerView, DcPhaseView, DcActionView) {
    match (phase, event) {
        (DcPhaseView::Setup(setup), DcEventView::Setup(setup_event)) => {
            let (after, step) = setup_next(handler, setup, setup_event);
            match step {
                SetupStepView::Link => (
                    after,
                    DcPhaseView::Setup(SetupPhase::Link),
                    DcActionView::Link,
                ),
                SetupStepView::Instantiate => (
                    after,
                    DcPhaseView::Setup(SetupPhase::Instance),
                    DcActionView::Instantiate,
                ),
                SetupStepView::Ready => (after, DcPhaseView::Reset, DcActionView::ResetWrites),
                SetupStepView::Fail(error) => (after, DcPhaseView::Done, DcActionView::Fail(error)),
                SetupStepView::Ignored => (after, phase, DcActionView::Ignored),
            }
        },
        (DcPhaseView::Reset, DcEventView::WritesReset) => (
            handler,
            DcPhaseView::Run,
            DcActionView::RunBlob(args_len(args)),
        ),
        (DcPhaseView::Run, DcEventView::Ran(outcome)) => match outcome {
            Ok(result) => (handler, DcPhaseView::Collect(result), DcActionView::CollectWrites),
            Err(message) => (
                handler,
                DcPhaseView::Done,
                DcActionView::Fail(WasmErrorView::WasmExecError(message)),
            ),
        },
        (
            DcPhaseView::Collect(result),
            DcEventView::WritesCollected { updates, run, collect, e2e },
        ) => {
            let timed = handler.timed("wasm_execution"@, run).timed(
                "collect_updates"@,
                collect,
            ).timed("e2e"@, e2e);
            (
                timed,
                DcPhaseView::Done,
                DcActionView::Respond(timed.response(result, updates, false)),
            )
        },
        _ => (handler, phase, DcActionView::Ignored),
    }
}

impl RadicalHandler {
    /// An execution in the datacenter: takes what has happened, says what to do
    /// next. The answer carries the writes of the function.
    pub fn dc_handler(&mut self, args: &Value, phase: DcPhase, event: DcEvent) -> (out: (
        DcPhase,
        DcAction,
    ))
        ensures
            (final(self)@, out.0@, out.1@) == dc_next(
                old(self)@,
                json_view(*args),
                phase@,
                event@,
            ),
    {
        match (phase, event) {
            (DcPhase::Setup(setup), DcEvent::Setup(setup_event)) => {
                match self.setup_wasm_blob(setup, setup_event) {
                    SetupStep::Link => (DcPhase::Setup(SetupPhase::Link), DcAction::Link),
                    SetupStep::Instantiate => (
                        DcPhase::Setup(SetupPhase::Instance),
                        DcAction::Instantiate,
                    ),
                    SetupStep::Ready => (DcPhase::Reset, DcAction::ResetWrites),
                    SetupStep::Fail(error) => (DcPhase::Done, DcAction::Fail(error)),
                    SetupStep::Ignored => (DcPhase::Setup(setup), DcAction::Ignored),
                }
            },
            (DcPhase::Reset, DcEvent::WritesReset) => {
                let text: Vec<u8> = encode_args(args);
                (DcPhase::Run, DcAction::RunBlob(text.len() as i32))
            },
            (DcPhase::Run, DcEvent::Ran(outcome)) => match outcome {
                Ok(result) => (DcPhase::Collect(result), DcAction::CollectWrites),
                Err(message) => (
                    DcPhase::Done,
                    DcAction::Fail(WasmError::WasmExecError(message)),
                ),
            },
            (
                DcPhase::Collect(result),
                DcEvent::WritesCollected { updates, run, collect, e2e },
            ) => {
                self.add_latency("wasm_execution", run);
                self.add_latency("collect_updates", collect);
                self.add_latency("e2e", e2e);
                let response: LambdaResponse = self.construct_response(
                    WasmResult { result },
                    updates,
                    false,
                );
                (DcPhase::Done, DcAction::Respond(response))
            },
            (phase, _) => (phase, DcAction::Ignored),
        }
    }
}

/// The handler and the phase after some events, from the start on.
pub open spec fn dc_state(
    handler: LambdaHandlerView,
    args: JsonView,
    events: Seq<DcEventView>,
) -> (LambdaHandlerView, DcPhaseView)
    decreases events.len(),
{
    if events.len() == 0 {
        (handler, DcPhaseView::Setup(SetupPhase::Load))
    } else {
        let (before, phase) = dc_state(handler, args, events.drop_last());
        let (after, next, _) = dc_next(before, args, phase, events.last());
        (after, next)
    }
}

/// The action that answers one of the events.
pub open spec fn dc_action(
    handler: LambdaHandlerView,
    args: JsonView,
    events: Seq<DcEventView>,
    i: int,
) -> DcActionView {
    let (before, phase) = dc_state(handler, args, events.take(i));
    dc_next(before, args, phase, events[i]).2
}

/// The recorded writes were reset.
pub open spec fn has_reset(events: Seq<DcEventView>) -> bool {
    exists|k: int| 0 <= k < events.len() && (#[trigger] events[k]) is WritesReset
}

/// The function ran with a result, after the recorded writes were reset.
pub open spec fn has_run_after_reset(events: Seq<DcEventView>, result: JsonView) -> bool {
    exists|j: int|
        0 <= j < events.len() && (#[trigger] events[j]) == DcEventView::Ran(Ok(result))
            && has_reset(events.take(j))
}

/// What a phase tells about the events before it.
spec fn dc_explained(
    handler: LambdaHandlerView,
    args: JsonView,
    events: Seq<DcEventView>,
) -> bool {
    match dc_state(handler, args, events).1 {
        DcPhaseView::Run => has_reset(events),
        DcPhaseView::Collect(result) => has_run_after_reset(events, result),
        _ => true,
    }
}

/// Every phase tells the truth about the events before it.
proof fn lemma_dc_explained(handler: LambdaHandlerView, args: JsonView, events: Seq<DcEventView>)
    ensures
        dc_explained(handler, args, events),
    decreases events.len(),
{
    if events.len() > 0 {
        let n = events.len() - 1;
        let rest = events.drop_last();
        assert(rest =~= events.take(n));
        lemma_dc_explained(handler, args, rest);
        match dc_state(handler, args, rest).1 {
            DcPhaseView::Reset => {
                if events.last() is WritesReset {
                    assert(events[n] is WritesReset);
                }
            },
            DcPhaseView::Run => {
                let k = choose|k: int| 0 <= k < rest.len() && (#[trigger] rest[k]) is WritesReset;
                assert(events[k] is WritesReset);
                if let DcEventView::Ran(Ok(result)) = events.last() {
                    assert(events[n] == DcEventView::Ran(Ok(result)));
                }
            },
            DcPhaseView::Collect(result) => {
                let j = choose|j: int|
                    0 <= j < rest.len() && (#[trigger] rest[j]) == DcEventView::Ran(Ok(result))
                        && has_reset(rest.take(j));
                assert(rest.take(j) =~= events.take(j));
                assert(events[j] == DcEventView::Ran(Ok(result)));
            },
            _ => {},
        }
    }
}

/// Whatever happens, an answer of the datacenter carries the result of a run
/// before which the recorded writes were reset, the writes that were collected
/// behind that run, and the durations that the handler is left with. It never
/// claims a passed check.
pub proof fn law_dc_answer_carries_its_writes(
    handler: LambdaHandlerView,
    args: JsonView,
    events: Seq<DcEventView>,
    i: int,
)
    requires
        0 <= i < events.len(),
        dc_action(handler, args, events, i) is Respond,
    ensures
        events[i] is WritesCollected,
        exists|result: JsonView| #[trigger]
            has_run_after_reset(events.take(i), result) && dc_action(
                handler,
                args,
                events,
                i,
            )->Respond_0 == dc_state(handler, args, events.take(i + 1)).0.response(
                result,
                events[i]->WritesCollected_updates,
                false,
            ),
{
    lemma_dc_explained(handler, args, events.take(i));
    assert(events.take(i + 1).drop_last() =~= events.take(i));
    let result = dc_state(handler, args, events.take(i)).1->Collect_0;
    assert(has_run_after_reset(events.take(i), result));
}

} // verus!
