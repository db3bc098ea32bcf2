//! The server that takes replicated values from the datacenter.

use crate::config::{
    choose_backend, chosen_backend, or_default, port_of, required, value_or, Backend, BackendView,
    ConfigError,
};
use crate::http_server::option_view;
use crate::numbers::port_value;
use crate::provider::StorageProvider;
use crate::storage::{update_views, BatchUpdateStep, Storage, StoreView, UpdateItem, UpdateView};
use vstd::prelude::*;
use vstd::std_specs::convert::FromSpecImpl;

verus! {

/// A value that the datacenter replicates to the edge.
#[derive(Debug, PartialEq)]
pub struct ReplicateItem {
    pub key: Vec<u8>,
    pub value: Vec<u8>,
    pub version: i64,
    pub table: String,
}

/// What the endpoints of the server share.
#[derive(Debug)]
pub struct EdgeServerState {
    pub storage: StorageProvider,
    pub edge_id: String,
}

/// The update that a replicated value stands for.
pub open spec fn replicated_update(item: ReplicateItem) -> UpdateView {
    UpdateView {
        table: item.table@,
        value: item.value@,
        key: item.key@,
        version: item.version,
    }
}

impl FromSpecImpl<ReplicateItem> for UpdateItem {
    open spec fn obeys_from_spec() -> bool {
        true
    }

    open spec fn from_spec(item: ReplicateItem) -> UpdateItem {
        UpdateItem {
            table: item.table,
            value: item.value,
            key: item.key,
            version: item.version,
        }
    }
}

impl From<ReplicateItem> for UpdateItem {
    fn from(item: ReplicateItem) -> (update: Self) {
        UpdateItem {
            key: item.key,
            value: item.value,
            version: item.version,
            table: item.table,
        }
    }
}

/// The answer of a server that is up.
pub fn health_handler() -> (response: (u16, String))
    ensures
        response.0 == 200,
        response.1@ == "OK"@,
{
    (200, "OK".to_owned())
}

/// The updates that a list of replicated values stands for.
pub open spec fn replicated_updates(items: Seq<ReplicateItem>) -> Seq<UpdateView> {
    items.map_values(|item: ReplicateItem| replicated_update(item))
}

/// The updates that a list of replicated values stands for, one for each of
/// them and in their order.
pub fn to_updates(items: Vec<ReplicateItem>) -> (updates: Vec<UpdateItem>)
    ensures
        update_views(updates@) == replicated_updates(items@),
{
    let mut updates: Vec<UpdateItem> = Vec::new();
    for item in it: items
        invariant
            updates.len() == it.index(),
            forall|j: int|
                0 <= j < updates.len() ==> (#[trigger] updates@[j])@ == replicated_update(
                    it.seq()[j],
                ),
    {
        updates.push(UpdateItem::from(item));
    }
    assert(update_views(updates@) =~= replicated_updates(items@));
    updates
}

/// A replication request that was taken: what is left to do for it, and the
/// status that it is answered with once that is done.
#[derive(Debug)]
pub struct Replication {
    pub step: BatchUpdateStep,
    pub status: u16,
}

/// The replication endpoint: stores the values that the datacenter sends. They
/// go through a clone of the backend, so its own records stay as they are.
/// Where the backend cannot take them there is no answer and nothing changes.
pub fn replicate_handler(state: &mut EdgeServerState, items: Vec<ReplicateItem>) -> (replication:
    Option<Replication>)
    ensures
        replication is Some <==> old(state).storage.can_update(replicated_updates(items@)),
        replication matches Some(r) ==> {
            &&& r.step@ == old(state).storage.batch_update_result(replicated_updates(items@))
            &&& r.status == 200
            &&& final(state).storage.held() == (StoreView {
                writes: old(state).storage.held().writes,
                ..old(state).storage.held_after_update(replicated_updates(items@))
            })
            &&& final(state).storage.same_kind(&old(state).storage)
            &&& final(state).edge_id == old(state).edge_id
        },
        replication is None ==> *final(state) == *old(state),
{
    let updates: Vec<UpdateItem> = to_updates(items);
    match state.storage.update_through_clone(&updates) {
        Some(step) => Some(Replication { step, status: 200 }),
        None => None,
    }
}

/// The variables of the edge server that takes replicated values.
#[derive(Debug)]
pub struct EdgeServerEnv {
    pub edge_id: Option<String>,
    pub edge_endpoint: Option<String>,
    pub edge_port: Option<String>,
    pub use_scylla: Option<String>,
    pub scylla_ep: Option<String>,
}

/// The configuration of the edge server that takes replicated values.
#[derive(Debug, PartialEq)]
pub struct EdgeServerConfig {
    pub edge_id: String,
    pub edge_endpoint: String,
    pub port: u16,
    pub backend: Backend,
}

/// What an [`EdgeServerConfig`] holds.
pub struct EdgeServerConfigView {
    pub edge_id: Seq<char>,
    pub edge_endpoint: Seq<char>,
    pub port: u16,
    pub backend: BackendView,
}

impl View for EdgeServerConfig {
    type V = EdgeServerConfigView;

    open spec fn view(&self) -> EdgeServerConfigView {
        EdgeServerConfigView {
            edge_id: self.edge_id@,
            edge_endpoint: self.edge_endpoint@,
            port: self.port,
            backend: self.backend@,
        }
    }
}

/// The configuration of the edge server, or the message that it stops with.
pub open spec fn edge_server_config(env: EdgeServerEnv) -> Result<
    EdgeServerConfigView,
    Seq<char>,
> {
    match option_view(env.edge_endpoint) {
        None => Err("EDGE_ENDPOINT must be set"@),
        Some(edge_endpoint) => match port_value(value_or(option_view(env.edge_port), "3000"@)) {
            None => Err("EDGE_PORT must be a valid port number"@),
            Some(port) => match chosen_backend(
                option_view(env.use_scylla),
                option_view(env.scylla_ep),
                "SCYLLA_EP must be set when USE_SCYLLA=true"@,
            ) {
                Err(message) => Err(message),
                Ok(backend) => Ok(
                    EdgeServerConfigView {
                        edge_id: value_or(option_view(env.edge_id), "edge-unknown"@),
                        edge_endpoint,
                        port,
                        backend,
                    },
                ),
            },
        },
    }
}

/// Reads the configuration of the edge server that takes replicated values.
pub fn run_edge_server(env: EdgeServerEnv) -> (r: Result<EdgeServerConfig, ConfigError>)
    ensures
        match r {
            Ok(config) => edge_server_config(env) == Ok::<EdgeServerConfigView, Seq<char>>(
                config@,
            ),
            Err(error) => edge_server_config(env) == Err::<EdgeServerConfigView, Seq<char>>(
                error.message@,
            ),
        },
{
    let edge_id: String = or_default(env.edge_id, "edge-unknown");
    let edge_endpoint: String = match required(env.edge_endpoint, "EDGE_ENDPOINT must be set") {
        Ok(value) => value,
        Err(error) => return Err(error),
    };
    let port: u16 = match port_of(env.edge_port, "3000", "EDGE_PORT must be a valid port number") {
        Ok(port) => port,
        Err(error) => return Err(error),
    };
    match choose_backend(
        &env.use_scylla,
        env.scylla_ep,
        "SCYLLA_EP must be set when USE_SCYLLA=true",
    ) {
        Ok(backend) => Ok(EdgeServerConfig { edge_id, edge_endpoint, port, backend }),
        Err(error) => Err(error),
    }
}

} // verus!
