//! The handlers of the HTTP deployment: an execution at the edge that is
//! checked against the datacenter, and one in the datacenter itself.
//!
//! A handler is a transition: it takes what has happened and says what to do
//! next. Durations come in as milliseconds.

use crate::bytes::pair_views;
use crate::consistency::{
    all_known, check_body, check_pairs, CheckBodyView, CheckRequest, CheckResult, CheckResultView,
    ConsistencyCheckBody, ConsistencyClient,
};
use crate::followup::{FollowupContent, FollowupView};
use crate::json::{json_clone, json_encoded, json_to_vec, json_view, json_views, JsonView};
use crate::keyed::{label_copy, KeyedMap, LabelMap};
use crate::storage::{
    update_views, version_views, KeySet, KeySetView, UpdateItem, UpdateView, Versions,
};
use crate::wasm::WasmResult;
use serde_json::Value;
use vstd::prelude::*;
use vstd::string::StringExecFns;

verus! {

/// Why a function could not be run.
#[derive(Debug, PartialEq)]
pub enum WasmError {
    LinkerError(String),
    WasmExecError(String),
}

/// What a [`WasmError`] holds.
pub enum WasmErrorView {
    LinkerError(Seq<char>),
    WasmExecError(Seq<char>),
}

impl View for WasmError {
    type V = WasmErrorView;

    open spec fn view(&self) -> WasmErrorView {
        match self {
            WasmError::LinkerError(message) => WasmErrorView::LinkerError(message@),
            WasmError::WasmExecError(message) => WasmErrorView::WasmExecError(message@),
        }
    }
}

impl WasmErrorView {
    /// The text that describes the error.
    pub open spec fn message(self) -> Seq<char> {
        match self {
            WasmErrorView::LinkerError(message) => "linker error: "@ + message,
            WasmErrorView::WasmExecError(message) => "wasm execution error: "@ + message,
        }
    }
}

impl WasmError {
    /// The text that describes the error.
    pub fn message(&self) -> (text: String)
        ensures
            text@ == self@.message(),
    {
        match self {
            WasmError::LinkerError(message) => "linker error: ".to_owned().concat(
                message.as_str(),
            ),
            WasmError::WasmExecError(message) => "wasm execution error: ".to_owned().concat(
                message.as_str(),
            ),
        }
    }
}

/// Why a request could not be handled.
#[derive(Debug, PartialEq)]
pub enum WrapperError {
    CheckError(String),
    FollowupError(String),
    FunctionNotFound(String),
}

/// What an error holds.
pub enum WrapperErrorView {
    CheckError(Seq<char>),
    FollowupError(Seq<char>),
    FunctionNotFound(Seq<char>),
}

impl View for WrapperError {
    type V = WrapperErrorView;

    open spec fn view(&self) -> WrapperErrorView {
        match self {
            WrapperError::CheckError(message) => WrapperErrorView::CheckError(message@),
            WrapperError::FollowupError(message) => WrapperErrorView::FollowupError(message@),
            WrapperError::FunctionNotFound(name) => WrapperErrorView::FunctionNotFound(name@),
        }
    }
}

impl WrapperErrorView {
    /// The text that describes the error.
    pub open spec fn message(self) -> Seq<char> {
        match self {
            WrapperErrorView::CheckError(message) => "check error: "@ + message,
            WrapperErrorView::FollowupError(message) => "followup error: "@ + message,
            WrapperErrorView::FunctionNotFound(name) => "function not found: "@ + name,
        }
    }
}

impl WrapperError {
    /// The text that describes the error.
    pub fn message(&self) -> (text: String)
        ensures
            text@ == self@.message(),
    {
        match self {
            WrapperError::CheckError(message) => "check error: ".to_owned().concat(
                message.as_str(),
            ),
            WrapperError::FollowupError(message) => "followup error: ".to_owned().concat(
                message.as_str(),
            ),
            WrapperError::FunctionNotFound(name) => "function not found: ".to_owned().concat(
                name.as_str(),
            ),
        }
    }
}

/// The answer to a request.
#[derive(Debug)]
pub struct HandlerResponse {
    pub result: WasmResult,
    pub updates: Vec<Value>,
    pub latencies: LabelMap<u128>,
    pub remote_latencies: LabelMap<i64>,
    pub check_status: bool,
}

/// What an answer holds.
pub struct ResponseView {
    pub result: JsonView,
    pub updates: Seq<JsonView>,
    pub latencies: Map<Seq<char>, u128>,
    pub remote_latencies: Map<Seq<char>, i64>,
    pub check_status: bool,
}

impl View for HandlerResponse {
    type V = ResponseView;

    open spec fn view(&self) -> ResponseView {
        ResponseView {
            result: json_view(self.result.result),
            updates: json_views(self.updates@),
            latencies: self.latencies@,
            remote_latencies: self.remote_latencies@,
            check_status: self.check_status,
        }
    }
}

/// The handler of one request, without its backend and its connections.
#[derive(Debug)]
pub struct RadicalHandler {
    pub latencies: LabelMap<u128>,
    pub remote_latencies: LabelMap<i64>,
    pub check_url: String,
}

/// What a handler holds.
pub struct HandlerView {
    pub latencies: Map<Seq<char>, u128>,
    pub remote_latencies: Map<Seq<char>, i64>,
    pub check_url: Seq<char>,
}

impl View for RadicalHandler {
    type V = HandlerView;

    open spec fn view(&self) -> HandlerView {
        HandlerView {
            latencies: self.latencies@,
            remote_latencies: self.remote_latencies@,
            check_url: self.check_url@,
        }
    }
}

impl HandlerView {
    /// The handler with a measured duration; an earlier one under the same
    /// label is replaced.
    pub open spec fn timed(self, label: Seq<char>, millis: u128) -> HandlerView {
        HandlerView { latencies: self.latencies.insert(label, millis), ..self }
    }

    /// The answer that the handler gives.
    pub open spec fn response(
        self,
        result: JsonView,
        updates: Seq<JsonView>,
        check_status: bool,
    ) -> ResponseView {
        ResponseView {
            result,
            updates,
            latencies: self.latencies,
            remote_latencies: self.remote_latencies,
            check_status,
        }
    }
}

/// What the setup of a function waits for.
#[derive(Clone, Copy, Debug)]
pub enum SetupPhase {
    /// The lookup of the function.
    Module,
    /// The linking of its imports.
    Link,
    /// Its first instance.
    Instance,
}

/// What happens during the setup of a function.
#[derive(Debug)]
pub enum SetupEvent {
    /// The function was looked up and, if found, loaded.
    Module { found: bool, load: u128 },
    /// The imports were linked, or failed to with a message.
    Linked { outcome: Result<(), String>, link: u128 },
    /// An instance was made, or failed to with a message; the whole setup took
    /// a total time.
    Instantiated { outcome: Result<(), String>, instance: u128, total: u128 },
}

/// What a [`SetupEvent`] holds.
pub enum SetupEventView {
    Module { found: bool, load: u128 },
    Linked { outcome: Result<(), Seq<char>>, link: u128 },
    Instantiated { outcome: Result<(), Seq<char>>, instance: u128, total: u128 },
}

/// The view of an outcome with a message.
pub open spec fn outcome_view(outcome: Result<(), String>) -> Result<(), Seq<char>> {
    match outcome {
        Ok(_) => Ok(()),
        Err(message) => Err(message@),
    }
}

impl View for SetupEvent {
    type V = SetupEventView;

    open spec fn view(&self) -> SetupEventView {
        match *self {
            SetupEvent::Module { found, load } => SetupEventView::Module { found, load },
            SetupEvent::Linked { outcome, link } => SetupEventView::Linked {
                outcome: outcome_view(outcome),
                link,
            },
            SetupEvent::Instantiated {
                outcome,
                instance,
                total,
            } => SetupEventView::Instantiated { outcome: outcome_view(outcome), instance, total },
        }
    }
}

/// What the setup of a function does next.
#[derive(Debug)]
pub enum SetupStep {
    Link,
    Instantiate,
    Ready,
    Fail(WrapperError),
    /// The event did not fit the phase; nothing changed.
    Ignored,
}

/// What a [`SetupStep`] holds.
pub enum SetupStepView {
    Link,
    Instantiate,
    Ready,
    Fail(WrapperErrorView),
    Ignored,
}

impl View for SetupStep {
    type V = SetupStepView;

    open spec fn view(&self) -> SetupStepView {
        match self {
            SetupStep::Link => SetupStepView::Link,
            SetupStep::Instantiate => SetupStepView::Instantiate,
            SetupStep::Ready => SetupStepView::Ready,
            SetupStep::Fail(error) => SetupStepView::Fail(error@),
            SetupStep::Ignored => SetupStepView::Ignored,
        }
    }
}

/// The setup of a function: look it up, link its imports, make an instance.
pub open spec fn setup_next(
    handler: HandlerView,
    function_name: Seq<char>,
    phase: SetupPhase,
    event: SetupEventView,
) -> (HandlerView, SetupStepView) {
    match (phase, event) {
        (SetupPhase::Module, SetupEventView::Module { found, load }) => if found {
            (handler.timed("blob_load"@, load), SetupStepView::Link)
        } else {
            (
                handler,
                SetupStepView::Fail(WrapperErrorView::FunctionNotFound(function_name)),
            )
        },
        (SetupPhase::Link, SetupEventView::Linked { outcome, link }) => match outcome {
            Ok(_) => (handler.timed("blob_link"@, link), SetupStepView::Instantiate),
            Err(message) => (
                handler,
                SetupStepView::Fail(WrapperErrorView::CheckError("Link error: "@ + message)),
            ),
        },
        (
            SetupPhase::Instance,
            SetupEventView::Instantiated { outcome, instance, total },
        ) => match outcome {
            Ok(_) => (
                handler.timed("instance_setup"@, instance).timed("wasm_setup"@, total),
                SetupStepView::Ready,
            ),
            Err(message) => (
                handler,
                SetupStepView::Fail(
                    WrapperErrorView::CheckError("Instance setup error: "@ + message),
                ),
            ),
        },
        _ => (handler, SetupStepView::Ignored),
    }
}

/// An error of the check with a message behind a prefix.
fn check_error(prefix: &str, message: String) -> (error: WrapperError)
    ensures
        error@ == WrapperErrorView::CheckError(prefix@ + message@),
{
    WrapperError::CheckError(prefix.to_owned().concat(message.as_str()))
}

impl RadicalHandler {
    /// A handler that has measured nothing yet.
    pub fn new(check_url: String) -> (handler: Self)
        ensures
            handler@ == (HandlerView {
                latencies: Map::empty(),
                remote_latencies: Map::empty(),
                check_url: check_url@,
            }),
    {
        RadicalHandler { latencies: KeyedMap::new(), remote_latencies: KeyedMap::new(), check_url }
    }

    /// Notes a measured duration under a label.
    pub fn add_latency(&mut self, label: &str, millis: u128)
        ensures
            final(self)@ == old(self)@.timed(label@, millis),
    {
        self.latencies.insert(label.to_owned(), millis);
    }

    /// Makes the answer, with the durations measured so far.
    pub fn construct_response(
        &self,
        result: WasmResult,
        updates: Vec<Value>,
        check_status: bool,
    ) -> (response: HandlerResponse)
        ensures
            response@ == self@.response(
                json_view(result.result),
                json_views(updates@),
                check_status,
            ),
    {
        HandlerResponse {
            result,
            updates,
            latencies: label_copy(&self.latencies),
            remote_latencies: label_copy(&self.remote_latencies),
            check_status,
        }
    }

    /// The setup of a function: takes what has happened, says what to do next.
    pub fn setup_wasm_blob(
        &mut self,
        function_name: &str,
        phase: SetupPhase,
        event: SetupEvent,
    ) -> (step: SetupStep)
        ensures
            (final(self)@, step@) == setup_next(old(self)@, function_name@, phase, event@),
    {
        match (phase, event) {
            (SetupPhase::Module, SetupEvent::Module { found, load }) => {
                if found {
                    self.add_latency("blob_load", load);
                    SetupStep::Link
                } else {
                    SetupStep::Fail(WrapperError::FunctionNotFound(function_name.to_owned()))
                }
            },
            (SetupPhase::Link, SetupEvent::Linked { outcome, link }) => match outcome {
                Ok(_) => {
                    self.add_latency("blob_link", link);
                    SetupStep::Instantiate
                },
                Err(message) => SetupStep::Fail(check_error("Link error: ", message)),
            },
            (
                SetupPhase::Instance,
                SetupEvent::Instantiated { outcome, instance, total },
            ) => match outcome {
                Ok(_) => {
                    self.add_latency("instance_setup", instance);
                    self.add_latency("wasm_setup", total);
                    SetupStep::Ready
                },
                Err(message) => SetupStep::Fail(check_error("Instance setup error: ", message)),
            },
            _ => SetupStep::Ignored,
        }
    }
}

/// What a function is to be run with at the edge.
#[derive(Debug)]
pub struct EdgeRequest {
    pub function_name: String,
    pub args: Value,
    pub exec_id: u128,
    pub remote_url: String,
}

/// What an [`EdgeRequest`] holds.
pub struct EdgeRequestView {
    pub function_name: Seq<char>,
    pub args: JsonView,
    pub exec_id: u128,
    pub remote_url: Seq<char>,
}

impl View for EdgeRequest {
    type V = EdgeRequestView;

    open spec fn view(&self) -> EdgeRequestView {
        EdgeRequestView {
            function_name: self.function_name@,
            args: json_view(self.args),
            exec_id: self.exec_id,
            remote_url: self.remote_url@,
        }
    }
}

/// The length of the arguments of a function, cut to 32 bits.
pub open spec fn args_len(args: JsonView) -> i32 {
    json_encoded(args).len() as usize as i32
}

/// The arguments of a function as it gets them: compact JSON text.
pub fn encode_args(args: &Value) -> (text: Vec<u8>)
    ensures
        text@ == json_encoded(json_view(*args)),
{
    json_to_vec(args)
}

/// What an execution at the edge waits for. From the run of the function on,
/// its result is kept; while the check is awaited, its writes are.
#[derive(Debug)]
pub enum EdgePhase {
    /// The setup of the function.
    Setup(SetupPhase),
    /// An instance that guesses the keys.
    GuessInstance,
    /// The guess.
    Guess,
    /// The local versions of the guessed keys.
    Versions(KeySet),
    /// The start of the check.
    Spawn,
    /// An instance that runs the function.
    ExecInstance,
    /// The reset of the recorded writes.
    Reset,
    /// The run of the function.
    Run,
    /// The recorded writes.
    Collect(Value),
    /// The verdict of the check.
    Check(Value, Vec<Value>),
    /// The handing over of the follow-up.
    Followup(Value),
    /// The local application of the updates that the datacenter sent.
    Apply(Value),
    /// Nothing: the execution is over.
    Done,
}

/// What an [`EdgePhase`] holds.
pub enum EdgePhaseView {
    Setup(SetupPhase),
    GuessInstance,
    Guess,
    Versions(KeySetView),
    Spawn,
    ExecInstance,
    Reset,
    Run,
    Collect(JsonView),
    Check(JsonView, Seq<JsonView>),
    Followup(JsonView),
    Apply(JsonView),
    Done,
}

impl View for EdgePhase {
    type V = EdgePhaseView;

    open spec fn view(&self) -> EdgePhaseView {
        match *self {
            EdgePhase::Setup(phase) => EdgePhaseView::Setup(phase),
            EdgePhase::GuessInstance => EdgePhaseView::GuessInstance,
            EdgePhase::Guess => EdgePhaseView::Guess,
            EdgePhase::Versions(key_set) => EdgePhaseView::Versions(key_set@),
            EdgePhase::Spawn => EdgePhaseView::Spawn,
            EdgePhase::ExecInstance => EdgePhaseView::ExecInstance,
            EdgePhase::Reset => EdgePhaseView::Reset,
            EdgePhase::Run => EdgePhaseView::Run,
            EdgePhase::Collect(result) => EdgePhaseView::Collect(json_view(result)),
            EdgePhase::Check(result, updates) => EdgePhaseView::Check(
                json_view(result),
                json_views(updates@),
            ),
            EdgePhase::Followup(result) => EdgePhaseView::Followup(json_view(result)),
            EdgePhase::Apply(result) => EdgePhaseView::Apply(json_view(result)),
            EdgePhase::Done => EdgePhaseView::Done,
        }
    }
}

/// What happens during an execution at the edge.
#[derive(Debug)]
#[allow(inconsistent_fields)]
pub enum EdgeEvent {
    Setup(SetupEvent),
    /// An instance was made, or failed to with a message.
    Instantiated(Result<(), String>),
    /// The keys were guessed, or the guess failed with a message.
    Guessed { outcome: Result<KeySet, String>, guess: u128 },
    /// The local versions came in.
    Versions { versions: Versions, body: u128 },
    /// The check was started.
    Spawned { spawn: u128 },
    /// The recorded writes were reset.
    WritesReset { reset: u128 },
    /// The function ran, or failed with a message.
    Ran { outcome: Result<Value, String>, run: u128 },
    /// The recorded writes were collected.
    WritesCollected { updates: Vec<Value>, collect: u128 },
    /// The check gave its verdict and took some time, or failed.
    Checked { outcome: Result<(CheckResult, u128), ()>, wait: u128, split: u128, e2e: u128 },
    /// The follow-up was handed over, or could not be, with a message.
    FollowupSent { outcome: Result<(), String>, followup: u128 },
    /// The updates of the datacenter were applied.
    UpdatesApplied { update: u128, e2e: u128 },
}

/// What an [`EdgeEvent`] holds.
#[allow(inconsistent_fields)]
pub enum EdgeEventView {
    Setup(SetupEventView),
    Instantiated(Result<(), Seq<char>>),
    Guessed { outcome: Result<KeySetView, Seq<char>>, guess: u128 },
    Versions { versions: Seq<(Seq<char>, Seq<u8>, Option<i64>)>, body: u128 },
    Spawned { spawn: u128 },
    WritesReset { reset: u128 },
    Ran { outcome: Result<JsonView, Seq<char>>, run: u128 },
    WritesCollected { updates: Seq<JsonView>, collect: u128 },
    Checked { outcome: Result<(CheckResultView, u128), ()>, wait: u128, split: u128, e2e: u128 },
    FollowupSent { outcome: Result<(), Seq<char>>, followup: u128 },
    UpdatesApplied { update: u128, e2e: u128 },
}

/// The view of the outcome of a run.
pub open spec fn run_view(outcome: Result<Value, String>) -> Result<JsonView, Seq<char>> {
    match outcome {
        Ok(result) => Ok(json_view(result)),
        Err(message) => Err(message@),
    }
}

impl View for EdgeEvent {
    type V = EdgeEventView;

    open spec fn view(&self) -> EdgeEventView {
        match *self {
            EdgeEvent::Setup(event) => EdgeEventView::Setup(event@),
            EdgeEvent::Instantiated(outcome) => EdgeEventView::Instantiated(outcome_view(outcome)),
            EdgeEvent::Guessed { outcome, guess } => EdgeEventView::Guessed {
                outcome: match outcome {
                    Ok(key_set) => Ok(key_set@),
                    Err(message) => Err(message@),
                },
                guess,
            },
            EdgeEvent::Versions { versions, body } => EdgeEventView::Versions {
                versions: version_views(versions@),
                body,
            },
            EdgeEvent::Spawned { spawn } => EdgeEventView::Spawned { spawn },
            EdgeEvent::WritesReset { reset } => EdgeEventView::WritesReset { reset },
            EdgeEvent::Ran { outcome, run } => EdgeEventView::Ran {
                outcome: run_view(outcome),
                run,
            },
            EdgeEvent::WritesCollected { updates, collect } => EdgeEventView::WritesCollected {
                updates: json_views(updates@),
                collect,
            },
            EdgeEvent::Checked { outcome, wait, split, e2e } => EdgeEventView::Checked {
                outcome: match outcome {
                    Ok((verdict, check)) => Ok((verdict@, check)),
                    Err(_) => Err(()),
                },
                wait,
                split,
                e2e,
            },
            EdgeEvent::FollowupSent { outcome, followup } => EdgeEventView::FollowupSent {
                outcome: outcome_view(outcome),
                followup,
            },
            EdgeEvent::UpdatesApplied { update, e2e } => EdgeEventView::UpdatesApplied {
                update,
                e2e,
            },
        }
    }
}

/// What an execution at the edge does next.
#[derive(Debug)]
pub enum EdgeAction {
    Link,
    Instantiate,
    /// Call the function's guess of its keys.
    GuessKey(i32),
    /// Ask the local backend for versions.
    FetchVersions(Vec<(String, Vec<u8>)>),
    /// Start the check.
    SpawnCheck(CheckRequest),
    ResetWrites,
    /// Call the function.
    RunBlob(i32),
    CollectWrites,
    AwaitCheck,
    /// Hand the writes to the background task.
    SendFollowup(FollowupContent),
    /// Apply updates to the local backend.
    ApplyUpdates(Vec<UpdateItem>),
    Respond(HandlerResponse),
    Fail(WrapperError),
    /// The event did not fit the phase; nothing changed.
    Ignored,
}

/// What an [`EdgeAction`] holds.
pub enum EdgeActionView {
    Link,
    Instantiate,
    GuessKey(i32),
    FetchVersions(Seq<(Seq<char>, Seq<u8>)>),
    SpawnCheck(Seq<char>, CheckBodyView),
    ResetWrites,
    RunBlob(i32),
    CollectWrites,
    AwaitCheck,
    SendFollowup(FollowupView),
    ApplyUpdates(Seq<UpdateView>),
    Respond(ResponseView),
    Fail(WrapperErrorView),
    Ignored,
}

impl View for EdgeAction {
    type V = EdgeActionView;

    open spec fn view(&self) -> EdgeActionView {
        match *self {
            EdgeAction::Link => EdgeActionView::Link,
            EdgeAction::Instantiate => EdgeActionView::Instantiate,
            EdgeAction::GuessKey(args_len) => EdgeActionView::GuessKey(args_len),
            EdgeAction::FetchVersions(pairs) => EdgeActionView::FetchVersions(pair_views(pairs@)),
            EdgeAction::SpawnCheck(request) => EdgeActionView::SpawnCheck(
                request.url@,
                request.body@,
            ),
            EdgeAction::ResetWrites => EdgeActionView::ResetWrites,
            EdgeAction::RunBlob(args_len) => EdgeActionView::RunBlob(args_len),
            EdgeAction::CollectWrites => EdgeActionView::CollectWrites,
            EdgeAction::AwaitCheck => EdgeActionView::AwaitCheck,
            EdgeAction::SendFollowup(content) => EdgeActionView::SendFollowup(content@),
            EdgeAction::ApplyUpdates(updates) => EdgeActionView::ApplyUpdates(
                update_views(updates@),
            ),
            EdgeAction::Respond(response) => EdgeActionView::Respond(response@),
            EdgeAction::Fail(error) => EdgeActionView::Fail(error@),
            EdgeAction::Ignored => EdgeActionView::Ignored,
        }
    }
}

/// The end of an execution with an error of the check.
pub open spec fn edge_failure(handler: HandlerView, message: Seq<char>) -> (
    HandlerView,
    EdgePhaseView,
    EdgeActionView,
) {
    (
        handler,
        EdgePhaseView::Done,
        EdgeActionView::Fail(WrapperErrorView::CheckError(message)),
    )
}

/// The setup as a part of an execution at the edge.
pub open spec fn edge_setup_next(
    handler: HandlerView,
    function_name: Seq<char>,
    phase: SetupPhase,
    event: SetupEventView,
) -> (HandlerView, EdgePhaseView, EdgeActionView) {
    let (after, step) = setup_next(handler, function_name, phase, event);
    match step {
        SetupStepView::Link => (
            after,
            EdgePhaseView::Setup(SetupPhase::Link),
            EdgeActionView::Link,
        ),
        SetupStepView::Instantiate => (
            after,
            EdgePhaseView::Setup(SetupPhase::Instance),
            EdgeActionView::Instantiate,
        ),
        SetupStepView::Ready => (
            after,
            EdgePhaseView::GuessInstance,
            EdgeActionView::Instantiate,
        ),
        SetupStepView::Fail(error) => (
            after,
            EdgePhaseView::Done,
            EdgeActionView::Fail(error),
        ),
        SetupStepView::Ignored => (
            after,
            EdgePhaseView::Setup(phase),
            EdgeActionView::Ignored,
        ),
    }
}

/// The verdict of the check. Where it passed, the writes go out as a follow-up;
/// where not, the updates that the datacenter sent are applied before the
/// answer. The answer carries the result of the local run either way.
pub open spec fn edge_verdict(
    handler: HandlerView,
    request: EdgeRequestView,
    result: JsonView,
    updates: Seq<JsonView>,
    verdict: CheckResultView,
    e2e: u128,
) -> (HandlerView, EdgePhaseView, EdgeActionView) {
    if verdict.check_result {
        (
            handler.timed("e2e"@, e2e),
            EdgePhaseView::Followup(result),
            EdgeActionView::SendFollowup(FollowupView { updates, id: request.exec_id }),
        )
    } else if verdict.updates.len() == 0 {
        (
            handler.timed("e2e"@, e2e),
            EdgePhaseView::Done,
            EdgeActionView::Respond(
                handler.timed("e2e"@, e2e).response(result, Seq::empty(), false),
            ),
        )
    } else {
        (handler, EdgePhaseView::Apply(result), EdgeActionView::ApplyUpdates(verdict.updates))
    }
}

/// One step of an execution at the edge.
pub open spec fn edge_next(
    handler: HandlerView,
    request: EdgeRequestView,
    phase: EdgePhaseView,
    event: EdgeEventView,
) -> (HandlerView, EdgePhaseView, EdgeActionView) {
    match (phase, event) {
        (EdgePhaseView::Setup(setup), EdgeEventView::Setup(setup_event)) => edge_setup_next(
            handler,
            request.function_name,
            setup,
            setup_event,
        ),
        (EdgePhaseView::GuessInstance, EdgeEventView::Instantiated(outcome)) => match outcome {
            Ok(_) => (
                handler,
                EdgePhaseView::Guess,
                EdgeActionView::GuessKey(args_len(request.args)),
            ),
            Err(message) => edge_failure(handler, "Instance error: "@ + message),
        },
        (EdgePhaseView::Guess, EdgeEventView::Guessed { outcome, guess }) => match outcome {
            Ok(key_set) => (
                handler.timed("key_guess"@, guess),
                EdgePhaseView::Versions(key_set),
                EdgeActionView::FetchVersions(check_pairs(key_set.read_set, key_set.write_set)),
            ),
            Err(message) => edge_failure(handler, "Key guess error: "@ + message),
        },
        (EdgePhaseView::Versions(key_set), EdgeEventView::Versions { versions, body }) => (
            handler.timed("body_end"@, body),
            EdgePhaseView::Spawn,
            EdgeActionView::SpawnCheck(
                handler.check_url + "/check"@,
                check_body(
                    versions,
                    request.exec_id,
                    key_set,
                    request.args,
                    request.remote_url + "/"@ + request.function_name,
                ),
            ),
        ),
        (EdgePhaseView::Spawn, EdgeEventView::Spawned { spawn }) => (
            handler.timed("spawn_check"@, spawn),
            EdgePhaseView::ExecInstance,
            EdgeActionView::Instantiate,
        ),
        (EdgePhaseView::ExecInstance, EdgeEventView::Instantiated(outcome)) => match outcome {
            Ok(_) => (handler, EdgePhaseView::Reset, EdgeActionView::ResetWrites),
            Err(message) => edge_failure(handler, "Instance error: "@ + message),
        },
        (EdgePhaseView::Reset, EdgeEventView::WritesReset { reset }) => (
            handler.timed("reset_writes"@, reset),
            EdgePhaseView::Run,
            EdgeActionView::RunBlob(args_len(request.args)),
        ),
        (EdgePhaseView::Run, EdgeEventView::Ran { outcome, run }) => match outcome {
            Ok(result) => (
                handler.timed("wasm_execution"@, run),
                EdgePhaseView::Collect(result),
                EdgeActionView::CollectWrites,
            ),
            Err(message) => edge_failure(handler, "WASM execution error: "@ + message),
        },
        (
            EdgePhaseView::Collect(result),
            EdgeEventView::WritesCollected { updates, collect },
        ) => (
            handler.timed("collect_writes"@, collect),
            EdgePhaseView::Check(result, updates),
            EdgeActionView::AwaitCheck,
        ),
        (
            EdgePhaseView::Check(result, updates),
            EdgeEventView::Checked { outcome, wait, split, e2e },
        ) => match outcome {
            Ok((verdict, check)) => {
                let timed = handler.timed("check_wait"@, wait).timed(
                    "consistency_check"@,
                    check,
                ).timed("split"@, split);
                edge_verdict(
                    HandlerView { remote_latencies: verdict.latencies, ..timed },
                    request,
                    result,
                    updates,
                    verdict,
                    e2e,
                )
            },
            Err(_) => edge_failure(handler, "Consistency check error"@),
        },
        (
            EdgePhaseView::Followup(result),
            EdgeEventView::FollowupSent { outcome, followup },
        ) => match outcome {
            Ok(_) => (
                handler.timed("followup"@, followup),
                EdgePhaseView::Done,
                EdgeActionView::Respond(
                    handler.timed("followup"@, followup).response(result, Seq::empty(), true),
                ),
            ),
            Err(message) => (
                handler,
                EdgePhaseView::Done,
                EdgeActionView::Fail(WrapperErrorView::FollowupError(message)),
            ),
        },
        (EdgePhaseView::Apply(result), EdgeEventView::UpdatesApplied { update, e2e }) => {
            let timed = handler.timed("update_state"@, update).timed("e2e"@, e2e);
            (
                timed,
                EdgePhaseView::Done,
                EdgeActionView::Respond(timed.response(result, Seq::empty(), false)),
            )
        },
        _ => (handler, phase, EdgeActionView::Ignored),
    }
}

/// The versions that come in are of keys that were asked for.
pub open spec fn edge_event_known(phase: EdgePhaseView, event: EdgeEventView) -> bool {
    match (phase, event) {
        (EdgePhaseView::Versions(key_set), EdgeEventView::Versions { versions, .. }) => all_known(
            versions,
            key_set.read_set,
            key_set.write_set,
        ),
        _ => true,
    }
}

impl RadicalHandler {
    /// Ends an execution with an error of the check.
    fn edge_fail(prefix: &str, message: String) -> (out: (EdgePhase, EdgeAction))
        ensures
            out.0@ == EdgePhaseView::Done,
            out.1@ == EdgeActionView::Fail(WrapperErrorView::CheckError(prefix@ + message@)),
    {
        (EdgePhase::Done, EdgeAction::Fail(check_error(prefix, message)))
    }

    /// The setup as a part of an execution at the edge.
    fn edge_setup(
        &mut self,
        function_name: &str,
        phase: SetupPhase,
        event: SetupEvent,
    ) -> (out: (EdgePhase, EdgeAction))
        ensures
            (final(self)@, out.0@, out.1@) == edge_setup_next(
                old(self)@,
                function_name@,
                phase,
                event@,
            ),
    {
        match self.setup_wasm_blob(function_name, phase, event) {
            SetupStep::Link => (EdgePhase::Setup(SetupPhase::Link), EdgeAction::Link),
            SetupStep::Instantiate => (
                EdgePhase::Setup(SetupPhase::Instance),
                EdgeAction::Instantiate,
            ),
            SetupStep::Ready => (EdgePhase::GuessInstance, EdgeAction::Instantiate),
            SetupStep::Fail(error) => (EdgePhase::Done, EdgeAction::Fail(error)),
            SetupStep::Ignored => (EdgePhase::Setup(phase), EdgeAction::Ignored),
        }
    }

    /// Makes the answer without updates.
    fn respond(&self, result: Value, check_status: bool) -> (out: (EdgePhase, EdgeAction))
        ensures
            out.0@ == EdgePhaseView::Done,
            out.1@ == EdgeActionView::Respond(
                self@.response(json_view(result), Seq::empty(), check_status),
            ),
    {
        let updates: Vec<Value> = Vec::new();
        assert(json_views(updates@) =~= Seq::empty());
        (
            EdgePhase::Done,
            EdgeAction::Respond(
                self.construct_response(WasmResult { result }, updates, check_status),
            ),
        )
    }

    /// Acts on the verdict of the check.
    fn edge_judge(
        &mut self,
        request: &EdgeRequest,
        result: Value,
        updates: Vec<Value>,
        verdict: CheckResult,
        check: u128,
        wait: u128,
        split: u128,
        e2e: u128,
    ) -> (out: (EdgePhase, EdgeAction))
        ensures
            (final(self)@, out.0@, out.1@) == edge_verdict(
                (HandlerView {
                    remote_latencies: verdict.latencies@,
                    ..old(self)@.timed("check_wait"@, wait).timed(
                        "consistency_check"@,
                        check,
                    ).timed("split"@, split)
                }),
                request@,
                json_view(result),
                json_views(updates@),
                verdict@,
                e2e,
            ),
    {
        self.add_latency("check_wait", wait);
        self.add_latency("consistency_check", check);
        self.add_latency("split", split);
        self.remote_latencies = verdict.latencies;
        if verdict.check_result {
            self.add_latency("e2e", e2e);
            (
                EdgePhase::Followup(result),
                EdgeAction::SendFollowup(FollowupContent { updates, id: request.exec_id }),
            )
        } else if verdict.updates.len() == 0 {
            self.add_latency("e2e", e2e);
            self.respond(result, false)
        } else {
            (EdgePhase::Apply(result), EdgeAction::ApplyUpdates(verdict.updates))
        }
    }

    /// An execution at the edge: takes what has happened, says what to do next.
    /// The function runs while the check is under way; nothing of its writes
    /// leaves the edge before the check has passed.
    pub fn edge_handler(
        &mut self,
        request: &EdgeRequest,
        phase: EdgePhase,
        event: EdgeEvent,
    ) -> (out: (EdgePhase, EdgeAction))
        requires
            edge_event_known(phase@, event@),
        ensures
            (final(self)@, out.0@, out.1@) == edge_next(old(self)@, request@, phase@, event@),
    {
        match (phase, event) {
            (EdgePhase::Setup(setup), EdgeEvent::Setup(setup_event)) => self.edge_setup(
                request.function_name.as_str(),
                setup,
                setup_event,
            ),
            (EdgePhase::GuessInstance, EdgeEvent::Instantiated(outcome)) => match outcome {
                Ok(_) => {
                    let args: Vec<u8> = encode_args(&request.args);
                    (EdgePhase::Guess, EdgeAction::GuessKey(args.len() as i32))
                },
                Err(message) => RadicalHandler::edge_fail("Instance error: ", message),
            },
            (EdgePhase::Guess, EdgeEvent::Guessed { outcome, guess }) => match outcome {
                Ok(key_set) => {
                    self.add_latency("key_guess", guess);
                    let pairs: Vec<(String, Vec<u8>)> = key_set.table_key_pairs();
                    (EdgePhase::Versions(key_set), EdgeAction::FetchVersions(pairs))
                },
                Err(message) => RadicalHandler::edge_fail("Key guess error: ", message),
            },
            (EdgePhase::Versions(key_set), EdgeEvent::Versions { versions, body }) => {
                let endpoint: String = request.remote_url.clone().concat("/").concat(
                    request.function_name.as_str(),
                );
                let check: ConsistencyCheckBody = ConsistencyCheckBody::create(
                    versions,
                    request.exec_id,
                    key_set,
                    json_clone(&request.args),
                    endpoint,
                );
                self.add_latency("body_end", body);
                let client: ConsistencyClient = ConsistencyClient::new(self.check_url.clone());
                (EdgePhase::Spawn, EdgeAction::SpawnCheck(client.do_check(check)))
            },
            (EdgePhase::Spawn, EdgeEvent::Spawned { spawn }) => {
                self.add_latency("spawn_check", spawn);
                (EdgePhase::ExecInstance, EdgeAction::Instantiate)
            },
            (EdgePhase::ExecInstance, EdgeEvent::Instantiated(outcome)) => match outcome {
                Ok(_) => (EdgePhase::Reset, EdgeAction::ResetWrites),
                Err(message) => RadicalHandler::edge_fail("Instance error: ", message),
            },
            (EdgePhase::Reset, EdgeEvent::WritesReset { reset }) => {
                self.add_latency("reset_writes", reset);
                let args: Vec<u8> = encode_args(&request.args);
                (EdgePhase::Run, EdgeAction::RunBlob(args.len() as i32))
            },
            (EdgePhase::Run, EdgeEvent::Ran { outcome, run }) => match outcome {
                Ok(result) => {
                    self.add_latency("wasm_execution", run);
                    (EdgePhase::Collect(result), EdgeAction::CollectWrites)
                },
                Err(message) => RadicalHandler::edge_fail("WASM execution error: ", message),
            },
            (EdgePhase::Collect(result), EdgeEvent::WritesCollected { updates, collect }) => {
                self.add_latency("collect_writes", collect);
                (EdgePhase::Check(result, updates), EdgeAction::AwaitCheck)
            },
            (
                EdgePhase::Check(result, updates),
                EdgeEvent::Checked { outcome, wait, split, e2e },
            ) => match outcome {
                Ok((verdict, check)) => self.edge_judge(
                    request,
                    result,
                    updates,
                    verdict,
                    check,
                    wait,
                    split,
                    e2e,
                ),
                Err(_) => (
                    EdgePhase::Done,
                    EdgeAction::Fail(
                        WrapperError::CheckError("Consistency check error".to_owned()),
                    ),
                ),
            },
            (EdgePhase::Followup(result), EdgeEvent::FollowupSent { outcome, followup }) => {
                match outcome {
                    Ok(_) => {
                        self.add_latency("followup", followup);
                        self.respond(result, true)
                    },
                    Err(message) => (
                        EdgePhase::Done,
                        EdgeAction::Fail(WrapperError::FollowupError(message)),
                    ),
                }
            },
            (EdgePhase::Apply(result), EdgeEvent::UpdatesApplied { update, e2e }) => {
                self.add_latency("update_state", update);
                self.add_latency("e2e", e2e);
                self.respond(result, false)
            },
            (phase, _) => (phase, EdgeAction::Ignored),
        }
    }
}

/// The handler and the phase after some events, from the start on.
pub open spec fn edge_state(
    handler: HandlerView,
    request: EdgeRequestView,
    events: Seq<EdgeEventView>,
) -> (HandlerView, EdgePhaseView)
    decreases events.len(),
{
    if events.len() == 0 {
        (handler, EdgePhaseView::Setup(SetupPhase::Module))
    } else {
        let (before, phase) = edge_state(handler, request, events.drop_last());
        let (after, next, _) = edge_next(before, request, phase, events.last());
        (after, next)
    }
}

/// The action that answers one of the events.
pub open spec fn edge_action(
    handler: HandlerView,
    request: EdgeRequestView,
    events: Seq<EdgeEventView>,
    i: int,
) -> EdgeActionView {
    let (before, phase) = edge_state(handler, request, events.take(i));
    edge_next(before, request, phase, events[i]).2
}

/// The function ran and gave a result.
pub open spec fn has_run(events: Seq<EdgeEventView>, result: JsonView) -> bool {
    exists|j: int| 0 <= j < events.len() && is_run(#[trigger] events[j], result)
}

/// The event reports a run with a result.
pub open spec fn is_run(event: EdgeEventView, result: JsonView) -> bool {
    event matches EdgeEventView::Ran { outcome: Ok(r), .. } && r == result
}

/// The writes of the function were collected.
pub open spec fn has_collected(events: Seq<EdgeEventView>, updates: Seq<JsonView>) -> bool {
    exists|j: int| 0 <= j < events.len() && is_collection(#[trigger] events[j], updates)
}

/// The event reports the writes of the function.
pub open spec fn is_collection(event: EdgeEventView, updates: Seq<JsonView>) -> bool {
    event matches EdgeEventView::WritesCollected { updates: u, .. } && u == updates
}

/// The event reports a verdict that passed or failed.
pub open spec fn is_verdict(event: EdgeEventView, passed: bool) -> bool {
    event matches EdgeEventView::Checked { outcome: Ok((verdict, _)), .. }
        && verdict.check_result == passed
}

/// A follow-up was handed over.
pub open spec fn has_followed_up(
    handler: HandlerView,
    request: EdgeRequestView,
    events: Seq<EdgeEventView>,
) -> bool {
    exists|j: int|
        0 <= j < events.len() && (#[trigger] edge_action(handler, request, events, j)) is
            SendFollowup
}

/// What a phase tells about the events before it.
spec fn phase_explained(
    handler: HandlerView,
    request: EdgeRequestView,
    events: Seq<EdgeEventView>,
) -> bool {
    let followed = has_followed_up(handler, request, events);
    match edge_state(handler, request, events).1 {
        EdgePhaseView::Collect(result) => !followed && has_run(events, result),
        EdgePhaseView::Check(result, updates) => !followed && has_run(events, result)
            && has_collected(events, updates),
        EdgePhaseView::Followup(result) => followed && has_run(events, result),
        EdgePhaseView::Apply(result) => !followed && has_run(events, result),
        EdgePhaseView::Done => true,
        _ => !followed,
    }
}

/// An action does not depend on the events behind it.
proof fn lemma_edge_action_prefix(
    handler: HandlerView,
    request: EdgeRequestView,
    events: Seq<EdgeEventView>,
    n: int,
    i: int,
)
    requires
        0 <= i < n <= events.len(),
    ensures
        edge_action(handler, request, events.take(n), i) == edge_action(
            handler,
            request,
            events,
            i,
        ),
{
    assert(events.take(n).take(i) =~= events.take(i));
}

/// Every phase tells the truth about the events before it.
proof fn lemma_phase_explained(
    handler: HandlerView,
    request: EdgeRequestView,
    events: Seq<EdgeEventView>,
)
    ensures
        phase_explained(handler, request, events),
    decreases events.len(),
{
    if events.len() > 0 {
        let n = events.len() - 1;
        let rest = events.drop_last();
        assert(rest =~= events.take(n));
        lemma_phase_explained(handler, request, rest);
        let (before, phase) = edge_state(handler, request, rest);
        let (after, next, action) = edge_next(before, request, phase, events.last());
        assert(action == edge_action(handler, request, events, n));
        assert forall|result: JsonView| has_run(rest, result) implies has_run(events, result) by {
            let j = choose|j: int| 0 <= j < rest.len() && is_run(#[trigger] rest[j], result);
            assert(is_run(events[j], result));
        }
        assert forall|updates: Seq<JsonView>| has_collected(rest, updates) implies has_collected(
            events,
            updates,
        ) by {
            let j = choose|j: int|
                0 <= j < rest.len() && is_collection(#[trigger] rest[j], updates);
            assert(is_collection(events[j], updates));
        }
        if has_followed_up(handler, request, rest) {
            let j = choose|j: int|
                0 <= j < rest.len() && (#[trigger] edge_action(handler, request, rest, j)) is
                    SendFollowup;
            lemma_edge_action_prefix(handler, request, events, n, j);
            assert(edge_action(handler, request, events, j) is SendFollowup);
        }
        if has_followed_up(handler, request, events) && !(action is SendFollowup) {
            let j = choose|j: int|
                0 <= j < events.len() && (#[trigger] edge_action(handler, request, events, j)) is
                    SendFollowup;
            lemma_edge_action_prefix(handler, request, events, n, j);
            assert(edge_action(handler, request, rest, j) is SendFollowup);
        }
        if action is SendFollowup {
            assert(edge_action(handler, request, events, n) is SendFollowup);
        }
        match events.last() {
            EdgeEventView::Ran { outcome: Ok(result), .. } => {
                assert(is_run(events[n], result));
            },
            EdgeEventView::WritesCollected { updates, .. } => {
                assert(is_collection(events[n], updates));
            },
            _ => {},
        }
    }
}

/// Whatever happens, a follow-up is handed over only when a check has passed,
/// and it holds the writes that this execution has collected, under its
/// identifier.
pub proof fn law_followup_only_after_passed_check(
    handler: HandlerView,
    request: EdgeRequestView,
    events: Seq<EdgeEventView>,
    i: int,
)
    requires
        0 <= i < events.len(),
        edge_action(handler, request, events, i) is SendFollowup,
    ensures
        is_verdict(events[i], true),
        edge_action(handler, request, events, i)->SendFollowup_0.id == request.exec_id,
        has_collected(
            events.take(i),
            edge_action(handler, request, events, i)->SendFollowup_0.updates,
        ),
{
    lemma_phase_explained(handler, request, events.take(i));
}

/// Whatever happens, the answer carries the result of the function's own run
/// and no updates, and it says that the check passed exactly where a follow-up
/// was handed over before.
pub proof fn law_response_tells_the_verdict(
    handler: HandlerView,
    request: EdgeRequestView,
    events: Seq<EdgeEventView>,
    i: int,
)
    requires
        0 <= i < events.len(),
        edge_action(handler, request, events, i) is Respond,
    ensures
        has_run(
            events.take(i),
            edge_action(handler, request, events, i)->Respond_0.result,
        ),
        edge_action(handler, request, events, i)->Respond_0.updates == Seq::<JsonView>::empty(),
        edge_action(handler, request, events, i)->Respond_0.check_status == has_followed_up(
            handler,
            request,
            events.take(i),
        ),
{
    lemma_phase_explained(handler, request, events.take(i));
}

/// Whatever happens, updates of the datacenter are applied locally only when a
/// check has failed, and they are the ones that came with its verdict.
pub proof fn law_updates_applied_only_after_failed_check(
    handler: HandlerView,
    request: EdgeRequestView,
    events: Seq<EdgeEventView>,
    i: int,
)
    requires
        0 <= i < events.len(),
        edge_action(handler, request, events, i) is ApplyUpdates,
    ensures
        is_verdict(events[i], false),
        events[i]->Checked_outcome->Ok_0.0.updates == edge_action(
            handler,
            request,
            events,
            i,
        )->ApplyUpdates_0,
        edge_action(handler, request, events, i)->ApplyUpdates_0.len() > 0,
{
}

/// Once an execution is over, its phase and its durations stay as they are.
proof fn lemma_edge_done_stays(
    handler: HandlerView,
    request: EdgeRequestView,
    events: Seq<EdgeEventView>,
    n: int,
)
    requires
        0 <= n <= events.len(),
        edge_state(handler, request, events.take(n)).1 is Done,
    ensures
        edge_state(handler, request, events) == edge_state(handler, request, events.take(n)),
    decreases events.len(),
{
    if n == events.len() {
        assert(events.take(n) =~= events);
    } else {
        let rest = events.drop_last();
        assert(rest.take(n) =~= events.take(n));
        lemma_edge_done_stays(handler, request, rest, n);
    }
}

/// An execution ends once: behind an answer or an error there is no further
/// action, whatever happens, and nothing is measured any more.
pub proof fn law_execution_ends_once(
    handler: HandlerView,
    request: EdgeRequestView,
    events: Seq<EdgeEventView>,
    i: int,
    j: int,
)
    requires
        0 <= i < j < events.len(),
        edge_action(handler, request, events, i) is Respond || edge_action(
            handler,
            request,
            events,
            i,
        ) is Fail,
    ensures
        edge_action(handler, request, events, j) is Ignored,
        edge_state(handler, request, events.take(j)) == edge_state(
            handler,
            request,
            events.take(i + 1),
        ),
{
    assert(events.take(i + 1).drop_last() =~= events.take(i));
    let prefix = events.take(j);
    assert(prefix.take(i + 1) =~= events.take(i + 1));
    lemma_edge_done_stays(handler, request, prefix, i + 1);
}

/// What an execution in the datacenter waits for.
#[derive(Debug)]
pub enum DcPhase {
    Setup(SetupPhase),
    /// An instance that runs the function.
    Instance,
    /// The reset of the recorded writes.
    Reset,
    /// The run of the function.
    Run,
    /// The recorded writes.
    Collect(Value),
    Done,
}

/// What a [`DcPhase`] holds.
pub enum DcPhaseView {
    Setup(SetupPhase),
    Instance,
    Reset,
    Run,
    Collect(JsonView),
    Done,
}

impl View for DcPhase {
    type V = DcPhaseView;

    open spec fn view(&self) -> DcPhaseView {
        match *self {
            DcPhase::Setup(phase) => DcPhaseView::Setup(phase),
            DcPhase::Instance => DcPhaseView::Instance,
            DcPhase::Reset => DcPhaseView::Reset,
            DcPhase::Run => DcPhaseView::Run,
            DcPhase::Collect(result) => DcPhaseView::Collect(json_view(result)),
            DcPhase::Done => DcPhaseView::Done,
        }
    }
}

/// What happens during an execution in the datacenter.
#[derive(Debug)]
pub enum DcEvent {
    Setup(SetupEvent),
    /// An instance was made, or failed to with a message.
    Instantiated(Result<(), String>),
    /// The recorded writes were reset.
    WritesReset,
    /// The function ran, or failed with a message.
    Ran(Result<Value, String>),
    /// The recorded writes were collected.
    WritesCollected { updates: Vec<Value>, run: u128, collect: u128, e2e: u128 },
}

/// What a [`DcEvent`] holds.
pub enum DcEventView {
    Setup(SetupEventView),
    Instantiated(Result<(), Seq<char>>),
    WritesReset,
    Ran(Result<JsonView, Seq<char>>),
    WritesCollected { updates: Seq<JsonView>, run: u128, collect: u128, e2e: u128 },
}

impl View for DcEvent {
    type V = DcEventView;

    open spec fn view(&self) -> DcEventView {
        match *self {
            DcEvent::Setup(event) => DcEventView::Setup(event@),
            DcEvent::Instantiated(outcome) => DcEventView::Instantiated(outcome_view(outcome)),
            DcEvent::WritesReset => DcEventView::WritesReset,
            DcEvent::Ran(outcome) => DcEventView::Ran(run_view(outcome)),
            DcEvent::WritesCollected {
                updates,
                run,
                collect,
                e2e,
            } => DcEventView::WritesCollected { updates: json_views(updates@), run, collect, e2e },
        }
    }
}

/// What an execution in the datacenter does next.
#[derive(Debug)]
pub enum DcAction {
    Link,
    Instantiate,
    ResetWrites,
    /// Call the function.
    RunBlob(i32),
    CollectWrites,
    Respond(HandlerResponse),
    Fail(WrapperError),
    /// The event did not fit the phase; nothing changed.
    Ignored,
}

/// What a [`DcAction`] holds.
pub enum DcActionView {
    Link,
    Instantiate,
    ResetWrites,
    RunBlob(i32),
    CollectWrites,
    Respond(ResponseView),
    Fail(WrapperErrorView),
    Ignored,
}

impl View for DcAction {
    type V = DcActionView;

    open spec fn view(&self) -> DcActionView {
        match *self {
            DcAction::Link => DcActionView::Link,
            DcAction::Instantiate => DcActionView::Instantiate,
            DcAction::ResetWrites => DcActionView::ResetWrites,
            DcAction::RunBlob(args_len) => DcActionView::RunBlob(args_len),
            DcAction::CollectWrites => DcActionView::CollectWrites,
            DcAction::Respond(response) => DcActionView::Respond(response@),
            DcAction::Fail(error) => DcActionView::Fail(error@),
            DcAction::Ignored => DcActionView::Ignored,
        }
    }
}

/// One step of an execution in the datacenter.
pub open spec fn dc_next(
    handler: HandlerView,
    function_name: Seq<char>,
    args: JsonView,
    phase: DcPhaseView,
    event: DcEventView,
) -> (HandlerView, DcPhaseView, DcActionView) {
    match (phase, event) {
        (DcPhaseView::Setup(setup), DcEventView::Setup(setup_event)) => {
            let (after, step) = setup_next(handler, function_name, setup, setup_event);
            match step {
                SetupStepView::Link => (
                    after,
                    DcPhaseView::Setup(SetupPhase::Link),
                    DcActionView::Link,
                ),
                SetupStepView::Instantiate => (
                    after,
                    DcPhaseView::Setup(SetupPhase::Instance),
                    DcActionView::Instantiate,
                ),
                SetupStepView::Ready => (after, DcPhaseView::Instance, DcActionView::Instantiate),
                SetupStepView::Fail(error) => (after, DcPhaseView::Done, DcActionView::Fail(error)),
                SetupStepView::Ignored => (after, phase, DcActionView::Ignored),
            }
        },
        (DcPhaseView::Instance, DcEventView::Instantiated(outcome)) => match outcome {
            Ok(_) => (handler, DcPhaseView::Reset, DcActionView::ResetWrites),
            Err(message) => (
                handler,
                DcPhaseView::Done,
                DcActionView::Fail(WrapperErrorView::CheckError("Instance error: "@ + message)),
            ),
        },
        (DcPhaseView::Reset, DcEventView::WritesReset) => (
            handler,
            DcPhaseView::Run,
            DcActionView::RunBlob(args_len(args)),
        ),
        (DcPhaseView::Run, DcEventView::Ran(outcome)) => match outcome {
            Ok(result) => (handler, DcPhaseView::Collect(result), DcActionView::CollectWrites),
            Err(message) => (
                handler,
                DcPhaseView::Done,
                DcActionView::Fail(
                    WrapperErrorView::CheckError("WASM execution error: "@ + message),
                ),
            ),
        },
        (
            DcPhaseView::Collect(result),
            DcEventView::WritesCollected { updates, run, collect, e2e },
        ) => {
            let timed = handler.timed("wasm_execution"@, run).timed(
                "collect_updates"@,
                collect,
            ).timed("e2e"@, e2e);
            (
                timed,
                DcPhaseView::Done,
                DcActionView::Respond(timed.response(result, updates, false)),
            )
        },
        _ => (handler, phase, DcActionView::Ignored),
    }
}

impl RadicalHandler {
    /// An execution in the datacenter: takes what has happened, says what to do
    /// next. The answer carries the writes of the function.
    pub fn dc_handler(
        &mut self,
        function_name: &str,
        args: &Value,
        phase: DcPhase,
        event: DcEvent,
    ) -> (out: (DcPhase, DcAction))
        ensures
            (final(self)@, out.0@, out.1@) == dc_next(
                old(self)@,
                function_name@,
                json_view(*args),
                phase@,
                event@,
            ),
    {
        match (phase, event) {
            (DcPhase::Setup(setup), DcEvent::Setup(setup_event)) => {
                match self.setup_wasm_blob(function_name, setup, setup_event) {
                    SetupStep::Link => (DcPhase::Setup(SetupPhase::Link), DcAction::Link),
                    SetupStep::Instantiate => (
                        DcPhase::Setup(SetupPhase::Instance),
                        DcAction::Instantiate,
                    ),
                    SetupStep::Ready => (DcPhase::Instance, DcAction::Instantiate),
                    SetupStep::Fail(error) => (DcPhase::Done, DcAction::Fail(error)),
                    SetupStep::Ignored => (DcPhase::Setup(setup), DcAction::Ignored),
                }
            },
            (DcPhase::Instance, DcEvent::Instantiated(outcome)) => match outcome {
                Ok(_) => (DcPhase::Reset, DcAction::ResetWrites),
                Err(message) => (
                    DcPhase::Done,
                    DcAction::Fail(check_error("Instance error: ", message)),
                ),
            },
            (DcPhase::Reset, DcEvent::WritesReset) => {
                let text: Vec<u8> = encode_args(args);
                (DcPhase::Run, DcAction::RunBlob(text.len() as i32))
            },
            (DcPhase::Run, DcEvent::Ran(outcome)) => match outcome {
                Ok(result) => (DcPhase::Collect(result), DcAction::CollectWrites),
                Err(message) => (
                    DcPhase::Done,
                    DcAction::Fail(check_error("WASM execution error: ", message)),
                ),
            },
            (
                DcPhase::Collect(result),
                DcEvent::WritesCollected { updates, run, collect, e2e },
            ) => {
                self.add_latency("wasm_execution", run);
                self.add_latency("collect_updates", collect);
                self.add_latency("e2e", e2e);
                let response: HandlerResponse = self.construct_response(
                    WasmResult { result },
                    updates,
                    false,
                );
                (DcPhase::Done, DcAction::Respond(response))
            },
            (phase, _) => (phase, DcAction::Ignored),
        }
    }
}

/// The handler and the phase after some events, from the start on.
pub open spec fn dc_state(
    handler: HandlerView,
    function_name: Seq<char>,
    args: JsonView,
    events: Seq<DcEventView>,
) -> (HandlerView, DcPhaseView)
    decreases events.len(),
{
    if events.len() == 0 {
        (handler, DcPhaseView::Setup(SetupPhase::Module))
    } else {
        let (before, phase) = dc_state(handler, function_name, args, events.drop_last());
        let (after, next, _) = dc_next(before, function_name, args, phase, events.last());
        (after, next)
    }
}

/// The action that answers one of the events.
pub open spec fn dc_action(
    handler: HandlerView,
    function_name: Seq<char>,
    args: JsonView,
    events: Seq<DcEventView>,
    i: int,
) -> DcActionView {
    let (before, phase) = dc_state(handler, function_name, args, events.take(i));
    dc_next(before, function_name, args, phase, events[i]).2
}

/// The recorded writes were reset.
pub open spec fn has_reset(events: Seq<DcEventView>) -> bool {
    exists|k: int| 0 <= k < events.len() && (#[trigger] events[k]) is WritesReset
}

/// The function ran with a result, after the recorded writes were reset.
pub open spec fn has_run_after_reset(events: Seq<DcEventView>, result: JsonView) -> bool {
    exists|j: int|
        0 <= j < events.len() && (#[trigger] events[j]) == DcEventView::Ran(Ok(result))
            && has_reset(events.take(j))
}

/// What a phase tells about the events before it.
spec fn dc_explained(
    handler: HandlerView,
    function_name: Seq<char>,
    args: JsonView,
    events: Seq<DcEventView>,
) -> bool {
    match dc_state(handler, function_name, args, events).1 {
        DcPhaseView::Run => has_reset(events),
        DcPhaseView::Collect(result) => has_run_after_reset(events, result),
        _ => true,
    }
}

/// Every phase tells the truth about the events before it.
proof fn lemma_dc_explained(
    handler: HandlerView,
    function_name: Seq<char>,
    args: JsonView,
    events: Seq<DcEventView>,
)
    ensures
        dc_explained(handler, function_name, args, events),
    decreases events.len(),
{
    if events.len() > 0 {
        let n = events.len() - 1;
        let rest = events.drop_last();
        assert(rest =~= events.take(n));
        lemma_dc_explained(handler, function_name, args, rest);
        match dc_state(handler, function_name, args, rest).1 {
            DcPhaseView::Reset => {
                if events.last() is WritesReset {
                    assert(events[n] is WritesReset);
                }
            },
            DcPhaseView::Run => {
                let k = choose|k: int| 0 <= k < rest.len() && (#[trigger] rest[k]) is WritesReset;
                assert(events[k] is WritesReset);
                if let DcEventView::Ran(Ok(result)) = events.last() {
                    assert(events[n] == DcEventView::Ran(Ok(result)));
                }
            },
            DcPhaseView::Collect(result) => {
                let j = choose|j: int|
                    0 <= j < rest.len() && (#[trigger] rest[j]) == DcEventView::Ran(Ok(result))
                        && has_reset(rest.take(j));
                assert(rest.take(j) =~= events.take(j));
                assert(events[j] == DcEventView::Ran(Ok(result)));
            },
            _ => {},
        }
    }
}

/// Whatever happens, an answer of the datacenter carries the result of a run
/// before which the recorded writes were reset, and the writes that were
/// collected behind that run. It never claims a passed check.
pub proof fn law_dc_answer_carries_its_writes(
    handler: HandlerView,
    function_name: Seq<char>,
    args: JsonView,
    events: Seq<DcEventView>,
    i: int,
)
    requires
        0 <= i < events.len(),
        dc_action(handler, function_name, args, events, i) is Respond,
    ensures
        ({
            let response = dc_action(handler, function_name, args, events, i)->Respond_0;
            &&& has_run_after_reset(events.take(i), response.result)
            &&& events[i] matches DcEventView::WritesCollected { updates, .. } && updates
                == response.updates
            &&& !response.check_status
        }),
{
    lemma_dc_explained(handler, function_name, args, events.take(i));
}

} // verus!
