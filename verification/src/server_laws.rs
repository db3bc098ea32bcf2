//! What the servers make of their requests and of their environment, from what
//! goes in to what comes out.

use crate::backend_laws::{dynamo_kept, lemma_dynamo_kept, lemma_sends_updates, sends_updates};
use crate::bytes::text_views;
use crate::config::{
    read_dc_handler_config, read_edge_handler_config, read_lambda_config, Backend, ConfigError,
    DcHandlerConfig, DcHandlerEnv, EdgeHandlerConfig, EdgeHandlerEnv, LambdaConfig, LambdaEnv,
};
use crate::dummy::{accepts_all, after_updates, law_updates_are_recorded};
use crate::edge_server::{
    health_handler, replicate_handler, replicated_updates, run_edge_server, to_updates,
    EdgeServerConfig, EdgeServerEnv, EdgeServerState, ReplicateItem, Replication,
};
use crate::handler::{RadicalHandler, WrapperError};
use crate::http_server::{
    create_dc_server, create_edge_server, dc_handler, edge_handler, health_check, list_functions,
    listen_address, requested_id, texts_json, AppError, AppState, DcCall, EdgeCall, RequestBody,
    ServerPlan,
};
use crate::ids::{id_or_new, id_parsed};
use crate::json::{json_member, json_view, JsonView};
use crate::lambda_laws::is_random_id;
use crate::numbers::{nat_text, port_value};
use crate::provider::StorageProvider;
use crate::storage::{update_views, UpdateItem};
use crate::view_laws::{
    has_fields, law_texts_are_seen_one_by_one, law_updates_are_seen_one_by_one, lemma_same_stale,
    lemma_same_values, same_stale, same_values,
};
use serde_json::Value;
use vstd::prelude::*;

verus! {

/// A text that may be missing is the given one.
pub open spec fn is_text(text: Option<String>, value: Seq<char>) -> bool {
    text matches Some(t) && t@ == value
}

/// Two texts that may be missing are the same.
pub open spec fn same_text(a: Option<String>, b: Option<String>) -> bool {
    match (a, b) {
        (Some(x), Some(y)) => x@ == y@,
        (None, None) => true,
        _ => false,
    }
}

/// An error is answered with a status and a text under its own field.
pub open spec fn answered(response: (u16, Value), status: u16, message: Seq<char>) -> bool {
    &&& response.0 == status
    &&& has_fields(json_view(response.1), set!["error"@])
    &&& json_member(json_view(response.1), "error"@) == JsonView::Text(message)
}

/// An object with one field has no other.
proof fn lemma_one_field(value: JsonView)
    ensures
        map!["error"@ => value].dom() == set!["error"@],
{
    assert(map!["error"@ => value].dom() =~= set!["error"@]);
}

/// An unknown function is answered as not found, with its name.
pub proof fn law_an_unknown_function_is_not_found(name: String, response: (u16, Value))
    requires
        call_ensures(
            AppError::into_response,
            (AppError::Handler(WrapperError::FunctionNotFound(name)),),
            response,
        ),
    ensures
        answered(response, 404, "Function not found: "@ + name@),
{
    lemma_one_field(JsonView::Text("Function not found: "@ + name@));
}

/// An error of the check is answered as one of the server, with its whole
/// description.
pub proof fn law_a_check_error_is_the_servers(message: String, response: (u16, Value))
    requires
        call_ensures(
            AppError::into_response,
            (AppError::Handler(WrapperError::CheckError(message)),),
            response,
        ),
    ensures
        answered(response, 500, "Handler error: "@ + ("check error: "@ + message@)),
{
    lemma_one_field(JsonView::Text("Handler error: "@ + ("check error: "@ + message@)));
}

/// An error of a follow-up is answered as one of the server, with its whole
/// description.
pub proof fn law_a_followup_error_is_the_servers(message: String, response: (u16, Value))
    requires
        call_ensures(
            AppError::into_response,
            (AppError::Handler(WrapperError::FollowupError(message)),),
            response,
        ),
    ensures
        answered(response, 500, "Handler error: "@ + ("followup error: "@ + message@)),
{
    lemma_one_field(JsonView::Text("Handler error: "@ + ("followup error: "@ + message@)));
}

/// An error of the configuration is answered as one of the server, with its
/// whole message.
pub proof fn law_a_config_error_is_the_servers(message: String, response: (u16, Value))
    requires
        call_ensures(AppError::into_response, (AppError::Config(message),), response),
    ensures
        answered(response, 500, "Configuration error: "@ + message@),
{
    lemma_one_field(JsonView::Text("Configuration error: "@ + message@));
}

/// An error of a handler is kept as it is.
pub proof fn law_a_handlers_error_is_kept(error: WrapperError, wrapped: AppError)
    requires
        call_ensures(<AppError as From<WrapperError>>::from, (error,), wrapped),
    ensures
        wrapped == AppError::Handler(error),
{
}

/// A request asks for the identifier that its text stands for, and for none
/// where it has no such text.
pub proof fn law_a_requested_id_is_the_one_in_the_text(id: Option<String>, exec_id: Option<u128>)
    requires
        call_ensures(requested_id, (&id,), exec_id),
    ensures
        match id {
            Some(text) => exec_id == id_parsed(text@),
            None => exec_id is None,
        },
{
}

/// An identifier that a caller gave is kept, and a new one is a random one.
pub proof fn law_a_given_id_is_kept(given: Option<u128>, id: u128)
    requires
        call_ensures(id_or_new, (given,), id),
    ensures
        match given {
            Some(g) => id == g,
            None => is_random_id(id),
        },
{
}

/// An execution has the identifier that a request asks for, or a random one
/// where it asks for none.
pub open spec fn has_requested_id(id: Option<String>, exec_id: u128) -> bool {
    match id {
        Some(text) => match id_parsed(text@) {
            Some(parsed) => exec_id == parsed,
            None => is_random_id(exec_id),
        },
        None => is_random_id(exec_id),
    }
}

/// A handler has measured nothing and checks at a URL.
pub open spec fn is_fresh(handler: RadicalHandler, check_url: Seq<char>) -> bool {
    &&& handler.latencies@ == Map::<Seq<char>, u128>::empty()
    &&& handler.remote_latencies@ == Map::<Seq<char>, i64>::empty()
    &&& handler.check_url@ == check_url
}

/// The edge endpoint starts the function that is asked for, with its whole
/// arguments and the identifier of the request, with a fresh handler and the
/// addresses of the server. A server without a name or without an address
/// refuses, and says which it lacks first.
pub proof fn law_the_edge_starts_what_is_asked_for(
    state: AppState,
    function_name: String,
    body: RequestBody,
    r: Result<EdgeCall, AppError>,
)
    requires
        call_ensures(edge_handler, (&state, function_name, body), r),
    ensures
        match (state.edge_id, state.edge_endpoint) {
            (Some(edge_id), Some(edge_endpoint)) => r matches Ok(call) && {
                &&& call.edge_id@ == edge_id@
                &&& call.edge_endpoint@ == edge_endpoint@
                &&& is_fresh(call.handler, state.check_url@)
                &&& call.request.function_name@ == function_name@
                &&& json_view(call.request.args) == json_view(body.args)
                &&& call.request.remote_url@ == state.remote_url@
                &&& has_requested_id(body.id, call.request.exec_id)
            },
            (None, _) => r matches Err(AppError::Config(message)) && message@ == "EDGE_ID not set"@,
            (Some(_), None) => r matches Err(AppError::Config(message)) && message@
                == "EDGE_ENDPOINT not set"@,
        },
{
}

/// The datacenter endpoint starts the function that is asked for, with its
/// whole arguments and the identifier of the request, with a fresh handler.
pub proof fn law_the_datacenter_starts_what_is_asked_for(
    state: AppState,
    function_name: String,
    body: RequestBody,
    call: DcCall,
)
    requires
        call_ensures(dc_handler, (&state, function_name, body), call),
    ensures
        is_fresh(call.handler, state.check_url@),
        call.function_name@ == function_name@,
        json_view(call.args) == json_view(body.args),
        has_requested_id(body.id, call.exec_id),
{
}

/// A copy of the state of a server has the same contents.
pub proof fn law_a_copied_state_is_the_same(state: AppState, copy: AppState)
    requires
        call_ensures(<AppState as Clone>::clone, (&state,), copy),
    ensures
        copy.check_url@ == state.check_url@,
        copy.remote_url@ == state.remote_url@,
        same_text(copy.edge_id, state.edge_id),
        same_text(copy.edge_endpoint, state.edge_endpoint),
{
}

/// A server that is up says so.
pub proof fn law_a_server_that_is_up_says_so(response: (u16, String))
    requires
        call_ensures(health_check, (), response),
    ensures
        response.0 == 200,
        response.1@ == "OK"@,
{
}

/// A server that takes replicated values and is up says so.
pub proof fn law_an_edge_server_that_is_up_says_so(response: (u16, String))
    requires
        call_ensures(health_handler, (), response),
    ensures
        response.0 == 200,
        response.1@ == "OK"@,
{
}

/// The list of functions has all of their names, in order, and their number,
/// and nothing else.
pub proof fn law_every_function_is_listed(functions: Vec<String>, list: Value)
    requires
        call_ensures(list_functions, (&functions,), list),
    ensures
        has_fields(json_view(list), set!["functions"@, "count"@]),
        json_member(json_view(list), "functions"@) matches JsonView::Array(names) && names.len()
            == functions@.len() && forall|i: int|
            0 <= i < functions@.len() ==> (#[trigger] names[i]) == JsonView::Text(functions@[i]@),
        json_member(json_view(list), "count"@) == JsonView::Integer(functions@.len() as int),
{
    reveal_strlit("functions");
    reveal_strlit("count");
    assert("functions"@.len() == 9);
    assert("count"@.len() == 5);
    law_texts_are_seen_one_by_one(functions@);
    let fields = map![
        "functions"@ => texts_json(text_views(functions@)),
        "count"@ => JsonView::Integer(functions@.len() as int),
    ];
    assert(fields.dom() =~= set!["functions"@, "count"@]);
}

/// A server listens on its port of every interface.
pub proof fn law_a_server_listens_on_its_port(port: u16, address: String)
    requires
        call_ensures(listen_address, (port,), address),
    ensures
        address@ == "0.0.0.0:"@ + nat_text(port as nat),
{
}

/// The server at the edge has the addresses and the name that it is given,
/// listens on its port, and reports its follow-ups to the service that does its
/// checks.
pub proof fn law_an_edge_server_is_planned_as_asked(
    check_url: String,
    remote_url: String,
    edge_id: String,
    edge_endpoint: String,
    port: u16,
    plan: ServerPlan,
)
    requires
        call_ensures(
            create_edge_server,
            (check_url, remote_url, edge_id, edge_endpoint, port),
            plan,
        ),
    ensures
        plan.state.check_url@ == check_url@,
        plan.state.remote_url@ == remote_url@,
        is_text(plan.state.edge_id, edge_id@),
        is_text(plan.state.edge_endpoint, edge_endpoint@),
        plan.address@ == "0.0.0.0:"@ + nat_text(port as nat),
        is_text(plan.followup_endpoint, check_url@),
{
}

/// The server in the datacenter has the address of the check that it is given
/// and listens on its port. It has no remote side, no name and no follow-ups.
pub proof fn law_a_dc_server_is_planned_as_asked(check_url: String, port: u16, plan: ServerPlan)
    requires
        call_ensures(create_dc_server, (check_url, port), plan),
    ensures
        plan.state.check_url@ == check_url@,
        plan.state.remote_url@.len() == 0,
        plan.state.edge_id is None,
        plan.state.edge_endpoint is None,
        plan.address@ == "0.0.0.0:"@ + nat_text(port as nat),
        plan.followup_endpoint is None,
{
}

/// A variable is set to `true`.
pub open spec fn is_true(variable: Option<String>) -> bool {
    variable matches Some(text) && text@ == "true"@
}

/// A value is that of a variable, or the default where it is not set.
pub open spec fn is_or_default(
    value: String,
    variable: Option<String>,
    default: Seq<char>,
) -> bool {
    match variable {
        Some(text) => value@ == text@,
        None => value@ == default,
    }
}

/// The port that a variable names, or the default where it is not set.
pub open spec fn named_port(variable: Option<String>, default: Seq<char>) -> Option<u16> {
    match variable {
        Some(text) => port_value(text@),
        None => port_value(default),
    }
}

/// Scylla is asked for without an endpoint.
pub open spec fn lacks_endpoint(use_scylla: Option<String>, scylla_ep: Option<String>) -> bool {
    is_true(use_scylla) && scylla_ep is None
}

/// The database is Scylla at its endpoint where it is asked for, and the one in
/// the cloud where it is not.
pub open spec fn is_chosen(
    backend: Backend,
    use_scylla: Option<String>,
    scylla_ep: Option<String>,
) -> bool {
    if is_true(use_scylla) {
        backend matches Backend::Scylla { endpoint } && is_text(scylla_ep, endpoint@)
    } else {
        backend is Cloud
    }
}

/// Scylla and a local database have a fixed region, and the one in the cloud
/// has a fallback.
pub proof fn law_the_region_is_that_of_the_backend(backend: Backend, region: String)
    requires
        call_ensures(Backend::region, (&backend,), region),
    ensures
        match backend {
            Backend::Scylla { .. } => region@ == "None"@,
            Backend::Local { .. } => region@ == "local"@,
            Backend::Cloud => region@ == "eu-central-1"@,
        },
{
}

/// The server at the edge takes its configuration from its variables, with the
/// defaults for the port and the functions. It stops with the message of the
/// first variable that is wrong.
pub proof fn law_the_edge_handler_is_configured_by_its_variables(
    env: EdgeHandlerEnv,
    r: Result<EdgeHandlerConfig, ConfigError>,
)
    requires
        call_ensures(read_edge_handler_config, (env,), r),
    ensures
        if named_port(env.port, "8080"@) is None {
            r matches Err(error) && error.message@ == "PORT must be a valid port number"@
        } else if env.check_url is None {
            r matches Err(error) && error.message@ == "CHECK_URL must be set"@
        } else if env.remote_url is None {
            r matches Err(error) && error.message@ == "REMOTE_URL must be set"@
        } else if env.edge_id is None {
            r matches Err(error) && error.message@ == "EDGE_ID must be set"@
        } else if env.edge_endpoint is None {
            r matches Err(error) && error.message@ == "EDGE_ENDPOINT must be set"@
        } else if lacks_endpoint(env.use_scylla, env.scylla_ep) {
            r matches Err(error) && error.message@ == "SCYLLA_EP must be set when USE_SCYLLA=true"@
        } else {
            r matches Ok(config) && {
                &&& named_port(env.port, "8080"@) == Some(config.port)
                &&& is_text(env.check_url, config.check_url@)
                &&& is_text(env.remote_url, config.remote_url@)
                &&& is_text(env.edge_id, config.edge_id@)
                &&& is_text(env.edge_endpoint, config.edge_endpoint@)
                &&& is_or_default(config.functions_dir, env.functions_dir, "src/functions"@)
                &&& is_chosen(config.backend, env.use_scylla, env.scylla_ep)
            }
        },
{
}

/// The server in the datacenter takes its configuration from its variables,
/// with the defaults for the port, the check and the functions. It stops with
/// the message of the first variable that is wrong.
pub proof fn law_the_dc_handler_is_configured_by_its_variables(
    env: DcHandlerEnv,
    r: Result<DcHandlerConfig, ConfigError>,
)
    requires
        call_ensures(read_dc_handler_config, (env,), r),
    ensures
        if named_port(env.port, "8080"@) is None {
            r matches Err(error) && error.message@ == "PORT must be a valid port number"@
        } else if lacks_endpoint(env.use_scylla, env.scylla_ep) {
            r matches Err(error) && error.message@ == "SCYLLA_EP must be set when USE_SCYLLA=true"@
        } else {
            r matches Ok(config) && {
                &&& named_port(env.port, "8080"@) == Some(config.port)
                &&& is_or_default(config.check_url, env.check_url, "http://localhost:8000"@)
                &&& is_or_default(config.functions_dir, env.functions_dir, "src/functions"@)
                &&& is_chosen(config.backend, env.use_scylla, env.scylla_ep)
            }
        },
{
}

/// The server that takes replicated values takes its configuration from its
/// variables, with the defaults for its name and the port. It stops with the
/// message of the first variable that is wrong.
pub proof fn law_the_edge_server_is_configured_by_its_variables(
    env: EdgeServerEnv,
    r: Result<EdgeServerConfig, ConfigError>,
)
    requires
        call_ensures(run_edge_server, (env,), r),
    ensures
        if env.edge_endpoint is None {
            r matches Err(error) && error.message@ == "EDGE_ENDPOINT must be set"@
        } else if named_port(env.edge_port, "3000"@) is None {
            r matches Err(error) && error.message@ == "EDGE_PORT must be a valid port number"@
        } else if lacks_endpoint(env.use_scylla, env.scylla_ep) {
            r matches Err(error) && error.message@ == "SCYLLA_EP must be set when USE_SCYLLA=true"@
        } else {
            r matches Ok(config) && {
                &&& is_or_default(config.edge_id, env.edge_id, "edge-unknown"@)
                &&& is_text(env.edge_endpoint, config.edge_endpoint@)
                &&& named_port(env.edge_port, "3000"@) == Some(config.port)
                &&& is_chosen(config.backend, env.use_scylla, env.scylla_ep)
            }
        },
{
}

/// The Lambda function takes its configuration from its variables: whether it
/// is near the user, the address of the check, and Scylla, a local database or
/// the one in the cloud. It stops with the message of the first variable that
/// is wrong.
pub proof fn law_the_lambda_is_configured_by_its_variables(
    env: LambdaEnv,
    r: Result<LambdaConfig, ConfigError>,
)
    requires
        call_ensures(read_lambda_config, (env,), r),
    ensures
        if env.deployment is None {
            r matches Err(error) && error.message@ == "DEPLOYMENT not set"@
        } else if !is_text(env.deployment, "edge"@) && !is_text(env.deployment, "datacenter"@) {
            r matches Err(error) && error.message@ == "unknown deployment env"@
        } else if lacks_endpoint(env.use_scylla, env.scylla_ep) {
            r matches Err(error) && error.message@
                == "Trying to use scylla without a specified endpoint"@
        } else if env.check_url is None {
            r matches Err(error) && error.message@ == "CHECK_URL not set"@
        } else {
            r matches Ok(config) && {
                &&& config.near_user == is_text(env.deployment, "edge"@)
                &&& is_text(env.check_url, config.check_url@)
                &&& if is_true(env.use_scylla) || !is_true(env.dynamodb_local) {
                    is_chosen(config.backend, env.use_scylla, env.scylla_ep)
                } else {
                    config.backend matches Backend::Local { endpoint } && is_or_default(
                        endpoint,
                        env.dynamodb_local_endpoint,
                        "http://localhost:8000"@,
                    )
                }
            }
        },
{
}

/// An update is the given replicated value.
pub open spec fn stands_for(update: UpdateItem, item: ReplicateItem) -> bool {
    &&& update.table@ == item.table@
    &&& update.key@ == item.key@
    &&& update.value@ == item.value@
    &&& update.version == item.version
}

/// The updates are the given replicated values, in order.
pub open spec fn stand_for(updates: Seq<UpdateItem>, items: Seq<ReplicateItem>) -> bool {
    updates.len() == items.len() && forall|i: int|
        0 <= i < items.len() ==> stands_for(#[trigger] updates[i], items[i])
}

/// Updates with the views of replicated values are these values.
proof fn lemma_stand_for(updates: Seq<UpdateItem>, items: Seq<ReplicateItem>)
    ensures
        update_views(updates) == replicated_updates(items) <==> stand_for(updates, items),
{
    law_updates_are_seen_one_by_one(updates);
    if update_views(updates) == replicated_updates(items) {
        assert(updates.len() == items.len());
        assert forall|i: int| 0 <= i < items.len() implies stands_for(
            #[trigger] updates[i],
            items[i],
        ) by {
            assert(update_views(updates)[i] == replicated_updates(items)[i]);
        }
    }
    if stand_for(updates, items) {
        assert forall|i: int| 0 <= i < items.len() implies #[trigger] update_views(updates)[i]
            == replicated_updates(items)[i] by {
            assert(stands_for(updates[i], items[i]));
        }
        assert(update_views(updates) =~= replicated_updates(items));
    }
}

/// A replicated value becomes an update with its table, its key, its value and
/// its version.
pub proof fn law_a_replicated_value_is_an_update(item: ReplicateItem, update: UpdateItem)
    requires
        call_ensures(<UpdateItem as From<ReplicateItem>>::from, (item,), update),
    ensures
        stands_for(update, item),
{
}

/// Replicated values become one update each, in order.
pub proof fn law_replicated_values_are_updates_in_order(
    items: Vec<ReplicateItem>,
    updates: Vec<UpdateItem>,
)
    requires
        call_ensures(to_updates, (items,), updates),
    ensures
        stand_for(updates@, items@),
{
    lemma_stand_for(updates@, items@);
}

/// Where the database is in use, all replicated values are sent to it, whole
/// and in order, and are answered as taken. The records and the stale keys stay
/// as they are.
pub proof fn law_replicated_values_are_sent_to_the_database(
    state: &mut EdgeServerState,
    items: Vec<ReplicateItem>,
    updates: Vec<UpdateItem>,
    replication: Option<Replication>,
)
    requires
        call_ensures(replicate_handler, (state, items), replication),
        stand_for(updates@, items@),
    ensures
        match (old(state).storage, final(state).storage) {
            (StorageProvider::Dynamo(before), StorageProvider::Dynamo(after)) => {
                &&& replication matches Some(r) && r.status == 200
                    && sends_updates(r.step, updates@)
                &&& dynamo_kept(before, after)
                &&& final(state).edge_id@ == old(state).edge_id@
            },
            (StorageProvider::Dynamo(_), _) => false,
            _ => true,
        },
{
    lemma_stand_for(updates@, items@);
    if let (StorageProvider::Dynamo(before), StorageProvider::Dynamo(after)) = (
        old(state).storage,
        final(state).storage,
    ) {
        lemma_sends_updates(replication->0.step, updates@);
        lemma_dynamo_kept(before, after);
    }
}

/// Where values are kept in memory, the replicated ones are stored one after
/// the other where all of them can be, and are answered as taken; else nothing
/// changes. The records and the stale keys stay as they are.
pub proof fn law_replicated_values_are_stored_in_memory(
    state: &mut EdgeServerState,
    items: Vec<ReplicateItem>,
    updates: Vec<UpdateItem>,
    replication: Option<Replication>,
)
    requires
        call_ensures(replicate_handler, (state, items), replication),
        stand_for(updates@, items@),
    ensures
        match (old(state).storage, final(state).storage) {
            (StorageProvider::Dummy(before), StorageProvider::Dummy(after)) => {
                &&& replication is Some <==> accepts_all(before@, update_views(updates@))
                &&& replication is Some ==> {
                    &&& replication->0.status == 200
                    &&& replication->0.step is Done
                    &&& after@.store == after_updates(before@, update_views(updates@)).store
                    &&& same_values(after.writes@, before.writes@)
                    &&& same_stale(after.stale_keys@, before.stale_keys@)
                }
                &&& replication is None ==> after == before
                &&& final(state).edge_id@ == old(state).edge_id@
            },
            (StorageProvider::Dummy(_), _) => false,
            _ => true,
        },
{
    lemma_stand_for(updates@, items@);
    if let (StorageProvider::Dummy(before), StorageProvider::Dummy(after)) = (
        old(state).storage,
        final(state).storage,
    ) {
        if replication is Some {
            law_updates_are_recorded(before@, update_views(updates@));
            lemma_same_values(after.writes@, before.writes@);
            lemma_same_stale(after.stale_keys@, before.stale_keys@);
        }
    }
}

} // verus!
