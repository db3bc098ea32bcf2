//! The HTTP servers: what their endpoints make of a request, and how errors
//! are answered.

use crate::bytes::text_views;
use crate::handler::{EdgeRequest, HandlerView, RadicalHandler, WrapperError, WrapperErrorView};
use crate::ids::{id_digit, id_or_new, id_parsed, parse_uuid};
use crate::json::{
    add_field, json_from_fields, json_from_text, json_from_u64, json_from_values, json_view,
    json_views, no_fields, JsonView,
};
use crate::numbers::{nat_text, port_text};
use serde_json::Value;
use vstd::prelude::*;
use vstd::std_specs::convert::FromSpecImpl;
use vstd::string::StringExecFns;

verus! {

/// The body of a request to run a function.
#[derive(Debug)]
pub struct RequestBody {
    pub args: Value,
    pub id: Option<String>,
}

/// What the endpoints of a server share, without its backend, its functions
/// and its connections.
#[derive(Debug)]
pub struct AppState {
    pub check_url: String,
    pub remote_url: String,
    pub edge_id: Option<String>,
    pub edge_endpoint: Option<String>,
}

/// The view of a text that may be missing.
pub open spec fn option_view(text: Option<String>) -> Option<Seq<char>> {
    match text {
        Some(t) => Some(t@),
        None => None,
    }
}

/// A copy of a text that may be missing.
fn copy_option(text: &Option<String>) -> (copy: Option<String>)
    ensures
        option_view(copy) == option_view(*text),
{
    match text {
        Some(t) => Some(t.clone()),
        None => None,
    }
}

impl Clone for AppState {
    /// A state with the same contents.
    fn clone(&self) -> (copy: Self)
        ensures
            copy.check_url@ == self.check_url@,
            copy.remote_url@ == self.remote_url@,
            option_view(copy.edge_id) == option_view(self.edge_id),
            option_view(copy.edge_endpoint) == option_view(self.edge_endpoint),
    {
        AppState {
            check_url: self.check_url.clone(),
            remote_url: self.remote_url.clone(),
            edge_id: copy_option(&self.edge_id),
            edge_endpoint: copy_option(&self.edge_endpoint),
        }
    }
}

/// Why a request was not answered.
#[derive(Debug, PartialEq)]
pub enum AppError {
    Handler(WrapperError),
    Config(String),
}

/// What an [`AppError`] holds.
pub enum AppErrorView {
    Handler(WrapperErrorView),
    Config(Seq<char>),
}

impl View for AppError {
    type V = AppErrorView;

    open spec fn view(&self) -> AppErrorView {
        match self {
            AppError::Handler(error) => AppErrorView::Handler(error@),
            AppError::Config(message) => AppErrorView::Config(message@),
        }
    }
}

impl AppErrorView {
    /// The status that an error is answered with: an unknown function is not
    /// found, everything else is the server's fault.
    pub open spec fn status(self) -> u16 {
        match self {
            AppErrorView::Handler(WrapperErrorView::FunctionNotFound(_)) => 404,
            _ => 500,
        }
    }

    /// The text that an error is answered with.
    pub open spec fn message(self) -> Seq<char> {
        match self {
            AppErrorView::Handler(WrapperErrorView::FunctionNotFound(name)) =>
                "Function not found: "@ + name,
            AppErrorView::Handler(error) => "Handler error: "@ + error.message(),
            AppErrorView::Config(message) => "Configuration error: "@ + message,
        }
    }
}

impl FromSpecImpl<WrapperError> for AppError {
    open spec fn obeys_from_spec() -> bool {
        true
    }

    open spec fn from_spec(error: WrapperError) -> AppError {
        AppError::Handler(error)
    }
}

impl From<WrapperError> for AppError {
    fn from(error: WrapperError) -> (wrapped: Self) {
        AppError::Handler(error)
    }
}

impl AppError {
    /// The status and the body that an error is answered with.
    pub fn into_response(self) -> (response: (u16, Value))
        ensures
            response.0 == self@.status(),
            json_view(response.1) == JsonView::Object(
                map!["error"@ => JsonView::Text(self@.message())],
            ),
    {
        let (status, message): (u16, String) = match &self {
            AppError::Handler(WrapperError::FunctionNotFound(name)) => (
                404,
                "Function not found: ".to_owned().concat(name.as_str()),
            ),
            AppError::Handler(error) => {
                let text: String = error.message();
                (500, "Handler error: ".to_owned().concat(text.as_str()))
            },
            AppError::Config(message) => (
                500,
                "Configuration error: ".to_owned().concat(message.as_str()),
            ),
        };
        let mut fields: serde_json::Map<String, Value> = no_fields();
        add_field(&mut fields, "error", json_from_text(message));
        (status, json_from_fields(fields))
    }
}

/// The identifier that a request asks for. A text that is none counts as
/// missing.
pub fn requested_id(id: &Option<String>) -> (exec_id: Option<u128>)
    ensures
        exec_id == match option_view(*id) {
            Some(text) => id_parsed(text),
            None => None,
        },
{
    match id {
        Some(text) => parse_uuid(text.as_str()),
        None => None,
    }
}

/// Whether an execution has the identifier that a request asks for, or a
/// random one where it asks for none.
pub open spec fn id_granted(id: Option<Seq<char>>, exec_id: u128) -> bool {
    match id {
        Some(text) if id_parsed(text) is Some => id_parsed(text) == Some(exec_id),
        _ => id_digit(exec_id, 12) == 4 && 8 <= id_digit(exec_id, 16) < 12,
    }
}

/// An execution at the edge that is to start.
#[derive(Debug)]
pub struct EdgeCall {
    pub handler: RadicalHandler,
    pub request: EdgeRequest,
    pub edge_id: String,
    pub edge_endpoint: String,
}

/// An execution in the datacenter that is to start.
#[derive(Debug)]
pub struct DcCall {
    pub handler: RadicalHandler,
    pub function_name: String,
    pub args: Value,
    pub exec_id: u128,
}

/// The handler that every request starts with.
pub open spec fn fresh_handler(check_url: Seq<char>) -> HandlerView {
    HandlerView { latencies: Map::empty(), remote_latencies: Map::empty(), check_url }
}

/// The edge endpoint: starts an execution. A server that does not know its
/// own name or address refuses.
pub fn edge_handler(state: &AppState, function_name: String, body: RequestBody) -> (r: Result<
    EdgeCall,
    AppError,
>)
    ensures
        match r {
            Ok(call) => {
                &&& option_view(state.edge_id) == Some(call.edge_id@)
                &&& option_view(state.edge_endpoint) == Some(call.edge_endpoint@)
                &&& call.handler@ == fresh_handler(state.check_url@)
                &&& call.request.function_name@ == function_name@
                &&& json_view(call.request.args) == json_view(body.args)
                &&& call.request.remote_url@ == state.remote_url@
                &&& id_granted(option_view(body.id), call.request.exec_id)
            },
            Err(error) => if state.edge_id is None {
                error@ == AppErrorView::Config("EDGE_ID not set"@)
            } else {
                state.edge_endpoint is None && error@ == AppErrorView::Config(
                    "EDGE_ENDPOINT not set"@,
                )
            },
        },
{
    let exec_id: Option<u128> = requested_id(&body.id);
    let edge_id: String = match &state.edge_id {
        Some(id) => id.clone(),
        None => return Err(AppError::Config("EDGE_ID not set".to_owned())),
    };
    let edge_endpoint: String = match &state.edge_endpoint {
        Some(endpoint) => endpoint.clone(),
        None => return Err(AppError::Config("EDGE_ENDPOINT not set".to_owned())),
    };
    Ok(
        EdgeCall {
            handler: RadicalHandler::new(state.check_url.clone()),
            request: EdgeRequest {
                function_name,
                args: body.args,
                exec_id: id_or_new(exec_id),
                remote_url: state.remote_url.clone(),
            },
            edge_id,
            edge_endpoint,
        },
    )
}

/// The datacenter endpoint: starts an execution.
pub fn dc_handler(state: &AppState, function_name: String, body: RequestBody) -> (call: DcCall)
    ensures
        call.handler@ == fresh_handler(state.check_url@),
        call.function_name@ == function_name@,
        json_view(call.args) == json_view(body.args),
        id_granted(option_view(body.id), call.exec_id),
{
    let exec_id: Option<u128> = requested_id(&body.id);
    DcCall {
        handler: RadicalHandler::new(state.check_url.clone()),
        function_name,
        args: body.args,
        exec_id: id_or_new(exec_id),
    }
}

/// The answer of a server that is up.
pub fn health_check() -> (response: (u16, String))
    ensures
        response.0 == 200,
        response.1@ == "OK"@,
{
    (200, "OK".to_owned())
}

/// A list of texts as JSON.
pub open spec fn texts_json(texts: Seq<Seq<char>>) -> JsonView {
    JsonView::Array(texts.map_values(|text: Seq<char>| JsonView::Text(text)))
}

/// The names of the functions that a server knows, and their number.
pub fn list_functions(functions: &Vec<String>) -> (list: Value)
    ensures
        json_view(list) == JsonView::Object(
            map![
                "functions"@ => texts_json(text_views(functions@)),
                "count"@ => JsonView::Integer(functions@.len() as int),
            ],
        ),
{
    let mut names: Vec<Value> = Vec::new();
    let mut i: usize = 0;
    while i < functions.len()
        invariant
            i <= functions.len(),
            names.len() == i,
            forall|j: int|
                0 <= j < i ==> json_view(#[trigger] names@[j]) == JsonView::Text(functions@[j]@),
        decreases functions.len() - i,
    {
        names.push(json_from_text(functions[i].clone()));
        i = i + 1;
    }
    assert(json_views(names@) =~= text_views(functions@).map_values(
        |text: Seq<char>| JsonView::Text(text),
    ));
    let mut fields: serde_json::Map<String, Value> = no_fields();
    add_field(&mut fields, "functions", json_from_values(names));
    add_field(&mut fields, "count", json_from_u64(functions.len() as u64));
    json_from_fields(fields)
}

/// A server that is to start.
#[derive(Debug)]
pub struct ServerPlan {
    pub state: AppState,
    pub address: String,
    /// The endpoint that the background task reports the follow-ups of the
    /// server to; without one there is no task.
    pub followup_endpoint: Option<String>,
}

/// The address that a server listens on: a port of every interface.
pub fn listen_address(port: u16) -> (address: String)
    ensures
        address@ == "0.0.0.0:"@ + nat_text(port as nat),
{
    let text: String = port_text(port);
    "0.0.0.0:".to_owned().concat(text.as_str())
}

/// The server at the edge. Its follow-ups are reported to the service that
/// does its checks.
pub fn create_edge_server(
    check_url: String,
    remote_url: String,
    edge_id: String,
    edge_endpoint: String,
    port: u16,
) -> (plan: ServerPlan)
    ensures
        plan.state.check_url@ == check_url@,
        plan.state.remote_url@ == remote_url@,
        option_view(plan.state.edge_id) == Some(edge_id@),
        option_view(plan.state.edge_endpoint) == Some(edge_endpoint@),
        plan.address@ == "0.0.0.0:"@ + nat_text(port as nat),
        option_view(plan.followup_endpoint) == Some(check_url@),
{
    let followup_endpoint: Option<String> = Some(check_url.clone());
    ServerPlan {
        state: AppState {
            check_url,
            remote_url,
            edge_id: Some(edge_id),
            edge_endpoint: Some(edge_endpoint),
        },
        address: listen_address(port),
        followup_endpoint,
    }
}

/// The server in the datacenter, which has no remote side and no follow-ups.
pub fn create_dc_server(check_url: String, port: u16) -> (plan: ServerPlan)
    ensures
        plan.state.check_url@ == check_url@,
        plan.state.remote_url@ == Seq::<char>::empty(),
        plan.state.edge_id is None,
        plan.state.edge_endpoint is None,
        plan.address@ == "0.0.0.0:"@ + nat_text(port as nat),
        plan.followup_endpoint is None,
{
    ServerPlan {
        state: AppState {
            check_url,
            remote_url: String::new(),
            edge_id: None,
            edge_endpoint: None,
        },
        address: listen_address(port),
        followup_endpoint: None,
    }
}

} // verus!
