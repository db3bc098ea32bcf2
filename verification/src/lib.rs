//! Edge execution of WebAssembly functions over a replicated key-value store.
//!
//! A function runs speculatively at the edge while the versions of the keys it
//! is going to touch are checked against the datacenter. The modules hold the
//! rules of that protocol as values and transitions; performing the requests
//! they ask for is left to the caller.
//!
//! The modules whose names end in `_laws` state what the calls of the others
//! come to, from what goes in to what comes out.

pub mod backend_laws;
pub mod blob;
pub mod bytes;
pub mod check_laws;
pub mod config;
pub mod consistency;
pub mod dummy;
pub mod dynamo;
pub mod edge_server;
pub mod followup;
pub mod handler;
pub mod handler_laws;
pub mod http_server;
pub mod ids;
pub mod json;
pub mod keyed;
pub mod lambda;
pub mod lambda_laws;
pub mod memory_laws;
pub mod numbers;
pub mod provider;
pub mod server_laws;
pub mod storage;
pub mod view_laws;
pub mod wasm;
