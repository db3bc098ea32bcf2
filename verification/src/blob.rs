//! A function that is run: how it is started, and what its imports do.

use crate::bytes::pair_views;
use crate::handler::{args_len, encode_args};
use crate::json::{json_encoded, json_view, JsonView};
use crate::provider::StorageWrapper;
use crate::storage::{is_stale, GetStep, GetStepView, Storage, StoreView};
use crate::wasm::{
    in_bounds, lossy_text, region, write_args, written, GetKeyCall, MemoryAccessError, MyState,
    ARGS_BASE,
};
use serde_json::Value;
use vstd::prelude::*;

verus! {

/// A call of an export of a function: where its result goes, where its
/// arguments stand and how long they are.
#[derive(Debug, PartialEq)]
pub struct EntryCall {
    pub export: &'static str,
    pub args: (i32, i32, i32),
}

/// A function without its code: its backend, and what it has read of it.
#[derive(Debug)]
pub struct WasmBlob<D: Storage> {
    pub store: StorageWrapper<D>,
    /// Whether reads are noted and stale keys are kept from the function.
    pub notes_reads: bool,
}

impl<D: Storage> WasmBlob<D> {
    /// A function that has read and written nothing yet.
    pub fn setup_blob(external_store: D, notes_reads: bool) -> (blob: Self)
        ensures
            blob.notes_reads == notes_reads,
            blob.store.inner.external_store == external_store,
            blob.store.read_keys@ == Seq::<(String, Vec<u8>)>::empty(),
            !blob.store.encountered_stale,
            blob.store.flag_covers_reads(),
    {
        WasmBlob { store: StorageWrapper::new(MyState { external_store }), notes_reads }
    }

    /// Leaves the arguments of the function, as compact JSON text, in the
    /// memory of a new instance.
    pub fn setup_instance(memory: &mut [u8], args: &Value) -> (r: Result<(), MemoryAccessError>)
        ensures
            r is Ok <==> in_bounds(
                old(memory)@,
                ARGS_BASE as int,
                json_encoded(json_view(*args)).len() as int,
            ),
            r is Ok ==> final(memory)@ == written(
                old(memory)@,
                ARGS_BASE as int,
                json_encoded(json_view(*args)),
            ),
            r is Err ==> final(memory)@ == old(memory)@,
    {
        let text: Vec<u8> = encode_args(args);
        write_args(memory, text.as_slice())
    }

    /// Starts a run: forgets the recorded writes, and says what to call.
    pub fn run_blob(&mut self, args_len: i32) -> (call: EntryCall)
        ensures
            call.export == "entry",
            call.args == (0i32, 8i32, args_len),
            final(self).store.inner.external_store.held() == (StoreView {
                writes: Seq::empty(),
                ..old(self).store.inner.external_store.held()
            }),
            final(self).store.inner.external_store.same_kind(
                &old(self).store.inner.external_store,
            ),
            final(self).store.read_keys == old(self).store.read_keys,
            final(self).store.encountered_stale == old(self).store.encountered_stale,
            final(self).notes_reads == old(self).notes_reads,
    {
        self.store.inner.reset_writes();
        EntryCall { export: "entry", args: (0, 8, args_len) }
    }

    /// Starts the guess of the keys that a run is going to touch: says what to
    /// call.
    pub fn guess_key(&self, args_len: i32) -> (call: EntryCall)
        ensures
            call.export == "key_guess",
            call.args == (0i32, 8i32, args_len),
    {
        EntryCall { export: "key_guess", args: (0, 8, args_len) }
    }

    /// The import that reads a key. Where reads are noted, the key joins the
    /// keys that were read, and a stale one counts as absent and is not asked
    /// for.
    pub fn get_key(&mut self, memory: &[u8], call: &GetKeyCall) -> (step: GetStep)
        requires
            call.readable(memory@),
        ensures
            ({
                let table = lossy_text(
                    region(memory@, call.table_base as int, call.table_len as int),
                );
                let key = region(memory@, call.key_base as int, call.key_len as int);
                let backend = old(self).store.inner.external_store;
                let stale = is_stale(backend.held().stale, table, key);
                let reads = pair_views(old(self).store.read_keys@);
                &&& final(self).store.inner == old(self).store.inner
                &&& final(self).notes_reads == old(self).notes_reads
                &&& pair_views(final(self).store.read_keys@) == if old(self).notes_reads {
                    reads.push((table, key))
                } else {
                    reads
                }
                &&& final(self).store.encountered_stale == (old(self).store.encountered_stale || (
                old(self).notes_reads && stale))
                &&& step@ == if old(self).notes_reads && stale {
                    GetStepView::Done(None)
                } else {
                    backend.get_result(table, key)
                }
                &&& old(self).store.flag_covers_reads() ==> final(self).store.flag_covers_reads()
            }),
    {
        if self.notes_reads {
            let (table, key): (String, Vec<u8>) = call.read(memory);
            self.store.get(table, &key)
        } else {
            self.store.inner.get_key(memory, call)
        }
    }
}

/// A function finds its arguments: both of its exports are called with the
/// place where the arguments were written and with their length, as long as 32
/// bits hold it.
pub proof fn law_function_finds_its_arguments(memory: Seq<u8>, args: JsonView)
    requires
        in_bounds(memory, ARGS_BASE as int, json_encoded(args).len() as int),
        json_encoded(args).len() <= i32::MAX,
    ensures
        region(written(memory, ARGS_BASE as int, json_encoded(args)), 8, args_len(args) as int)
            == json_encoded(args),
{
    assert(region(
        written(memory, ARGS_BASE as int, json_encoded(args)),
        8,
        json_encoded(args).len() as int,
    ) =~= json_encoded(args));
}

} // verus!
