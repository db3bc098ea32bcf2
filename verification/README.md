# radical

Edge execution of WebAssembly functions over a replicated key-value store.

A function runs speculatively at the edge while the versions of the keys that
it is going to touch are checked against the datacenter. Where the check
passes, the writes follow; where it fails, the edge takes over the newer
values. A second deployment, on Lambda, keeps track of stale keys instead and
has the datacenter repeat a run that met one.

## Layout

- `src/` is the verified library. It holds the rules as values and transitions:
  a handler takes what has happened and says what to do next, a backend says
  which requests to send and how to read the replies.
  - `storage`, `dummy`, `dynamo`, `provider`: the backends
  - `wasm`, `blob`: the memory protocol with a function, and its start
  - `consistency`, `followup`: the check, and the report of writes
  - `handler`, `http_server`, `edge_server`: the HTTP deployment
  - `lambda`: the Lambda deployment
  - `config`: what the programs read from their variables
  - `json`, `ids`, `numbers`, `keyed`, `bytes`: the values underneath
- `app/` performs what the library asks for: HTTP, DynamoDB, wasmtime.
- `tests/` runs the library.

## What is proved

The contracts of the transitions are exact. On top of them the `law_` functions
state what holds whatever happens: a follow-up goes out only behind a passed
check and holds the writes of its own execution, updates are applied only
behind a failed one, a run that met a stale key is never reported, an execution
ends once, every follow-up that holds writes is reported once and in order,
batches lose and reorder nothing, clones of a backend share its values and keep
their records apart, and what is written to the database or to a function's
memory is what is read back.

What rests on outside code is marked `external_body`: JSON values, base64,
UUIDs, and a few conversions of the standard library. The doc comment of each
says what is claimed of it.
