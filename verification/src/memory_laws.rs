//! What a running function finds in its memory and what its imports come to,
//! from what goes in to what comes out.

use crate::blob::{EntryCall, WasmBlob};
use crate::bytes::pair_views;
use crate::json::{json_encoded, json_view, json_views};
use crate::provider::StorageWrapper;
use crate::storage::{is_stale, GetStep, PutStep, StaleKeyView, Storage};
use crate::view_laws::law_pairs_are_seen_one_by_one;
use crate::wasm::{
    lossy_text, read_result_from_wasm, result_readable, write_args, GetKeyCall, MemoryAccessError,
    MyState, PutKeyCall, ARGS_BASE, RESULT_BASE,
};
use serde_json::Value;
use vstd::prelude::*;

verus! {

/// A region lies within a memory of the given size.
pub open spec fn lies_within(size: nat, base: u32, len: u32) -> bool {
    base + len <= size
}

/// The bytes of a memory from a place on.
pub open spec fn bytes_at(memory: Seq<u8>, base: u32, len: u32) -> Seq<u8> {
    memory.subrange(base as int, base + len)
}

/// The number whose little-endian bytes stand at a place.
pub open spec fn number_at(memory: Seq<u8>, at: int) -> int {
    memory[at] + 256 * (memory[at + 1] + 256 * (memory[at + 2] + 256 * memory[at + 3]))
}

/// The byte of a number with a place value.
pub open spec fn byte_of(n: int, place: int) -> int {
    (n / place) % 256
}

/// The byte that stands in a memory once a value was left at its end and then
/// its header at a place: where the value starts and how long it is.
pub open spec fn byte_left(memory: Seq<u8>, header: int, value: Seq<u8>, i: int) -> int {
    let start = memory.len() - value.len();
    if i == header {
        byte_of(start, 1)
    } else if i == header + 1 {
        byte_of(start, 256)
    } else if i == header + 2 {
        byte_of(start, 65536)
    } else if i == header + 3 {
        byte_of(start, 16777216)
    } else if i == header + 4 {
        byte_of(value.len() as int, 1)
    } else if i == header + 5 {
        byte_of(value.len() as int, 256)
    } else if i == header + 6 {
        byte_of(value.len() as int, 65536)
    } else if i == header + 7 {
        byte_of(value.len() as int, 16777216)
    } else if i >= start {
        value[i - start] as int
    } else {
        memory[i] as int
    }
}

/// The bytes that a function gets for a key: its whole value, or nothing where
/// the key is unknown.
pub open spec fn bytes_given(stored: Option<(i64, Vec<u8>)>) -> Seq<u8> {
    match stored {
        Some((_, value)) => value@,
        None => Seq::empty(),
    }
}

/// A result can be read where its header points to a place inside the memory,
/// below the sign bit of a word, or where there is no header.
pub proof fn law_a_result_is_readable_where_its_header_points_inside(
    memory: &[u8],
    offset: usize,
    readable: bool,
)
    requires
        call_ensures(result_readable, (memory, offset), readable),
    ensures
        readable <==> if offset + 8 <= memory@.len() {
            let base = number_at(memory@, offset as int);
            let len = number_at(memory@, offset + 4);
            base < 0x80000000 && len < 0x80000000 && base + len <= memory@.len()
        } else {
            true
        },
{
}

/// A result is read from where its header points, in the length that it gives.
/// Without a header there is none.
pub proof fn law_a_result_is_read_where_its_header_points(
    memory: &[u8],
    offset: usize,
    r: Result<Vec<u8>, MemoryAccessError>,
)
    requires
        call_ensures(read_result_from_wasm, (memory, offset), r),
    ensures
        if offset + 8 <= memory@.len() {
            r matches Ok(result) && {
                let base = number_at(memory@, offset as int);
                let len = number_at(memory@, offset + 4);
                result@ == memory@.subrange(base, base + len)
            }
        } else {
            r is Err
        },
{
}

/// The table and the key of a read can be read exactly where both lie inside
/// the memory.
pub proof fn law_a_get_is_readable_where_it_lies_inside(
    call: GetKeyCall,
    memory: &[u8],
    readable: bool,
)
    requires
        call_ensures(GetKeyCall::is_readable, (&call, memory), readable),
    ensures
        readable <==> lies_within(memory@.len(), call.table_base, call.table_len) && lies_within(
            memory@.len(),
            call.key_base,
            call.key_len,
        ),
{
}

/// A read names the text of the bytes at its table and the bytes at its key.
pub proof fn law_a_get_names_its_table_and_key(
    call: GetKeyCall,
    memory: &[u8],
    pair: (String, Vec<u8>),
)
    requires
        call_ensures(GetKeyCall::read, (&call, memory), pair),
    ensures
        pair.0@ == lossy_text(bytes_at(memory@, call.table_base, call.table_len)),
        pair.1@ == bytes_at(memory@, call.key_base, call.key_len),
{
}

/// A read can be answered exactly where the memory has room for the value and,
/// where the function asked for it, for the header.
pub proof fn law_a_get_is_answerable_where_there_is_room(
    call: GetKeyCall,
    memory: &[u8],
    stored: Option<(i64, Vec<u8>)>,
    room: bool,
)
    requires
        call_ensures(GetKeyCall::is_answerable, (&call, memory, &stored), room),
    ensures
        room <==> bytes_given(stored).len() <= memory@.len()
            && call.result_base + 8 <= memory@.len(),
{
}

/// An answer to a read leaves the whole value at the end of the memory and then
/// the header where the function asked for it, and nothing else.
pub proof fn law_an_answer_leaves_value_and_header(
    call: GetKeyCall,
    memory: &mut [u8],
    stored: Option<(i64, Vec<u8>)>,
)
    requires
        call_ensures(GetKeyCall::answer, (&call, memory, stored), ()),
        bytes_given(stored).len() <= old(memory)@.len(),
        call.result_base + 8 <= old(memory)@.len(),
    ensures
        final(memory)@.len() == old(memory)@.len(),
        forall|i: int|
            0 <= i < final(memory)@.len() ==> (#[trigger] final(memory)@[i]) == byte_left(
                old(memory)@,
                call.result_base as int,
                bytes_given(stored),
                i,
            ),
{
    assert(0x100 == 256 && 0x10000 == 65536 && 0x1000000 == 16777216);
}

/// The table, the key and the value of a write can be read exactly where all
/// three lie inside the memory.
pub proof fn law_a_put_is_readable_where_it_lies_inside(
    call: PutKeyCall,
    memory: &[u8],
    readable: bool,
)
    requires
        call_ensures(PutKeyCall::is_readable, (&call, memory), readable),
    ensures
        readable <==> {
            &&& lies_within(memory@.len(), call.table_base, call.table_len)
            &&& lies_within(memory@.len(), call.key_base, call.key_len)
            &&& lies_within(memory@.len(), call.value_base, call.value_len)
        },
{
}

/// A write names the text of the bytes at its table, the bytes at its key and
/// the bytes at its value.
pub proof fn law_a_put_names_its_table_key_and_value(
    call: PutKeyCall,
    memory: &[u8],
    write: (String, Vec<u8>, Vec<u8>),
)
    requires
        call_ensures(PutKeyCall::read, (&call, memory), write),
    ensures
        write.0@ == lossy_text(bytes_at(memory@, call.table_base, call.table_len)),
        write.1@ == bytes_at(memory@, call.key_base, call.key_len),
        write.2@ == bytes_at(memory@, call.value_base, call.value_len),
{
}

/// Arguments are written whole behind the place of the result, where there is
/// room for them, and nothing else changes.
pub proof fn law_arguments_are_written_whole(
    memory: &mut [u8],
    args: &[u8],
    r: Result<(), MemoryAccessError>,
)
    requires
        call_ensures(write_args, (memory, args), r),
    ensures
        r is Ok <==> 8 + args@.len() <= old(memory)@.len(),
        final(memory)@.len() == old(memory)@.len(),
        r is Ok ==> forall|i: int|
            0 <= i < final(memory)@.len() ==> (#[trigger] final(memory)@[i]) == if 8 <= i < 8
                + args@.len() {
                args@[i - 8]
            } else {
                old(memory)@[i]
            },
        r is Err ==> final(memory)@ == old(memory)@,
{
}

/// A new instance finds the whole text of its arguments behind the place of the
/// result, where there is room for it, and nothing else changes.
pub proof fn law_an_instance_finds_its_arguments<D: Storage>(
    memory: &mut [u8],
    args: Value,
    r: Result<(), MemoryAccessError>,
)
    requires
        call_ensures(WasmBlob::<D>::setup_instance, (memory, &args), r),
    ensures
        ({
            let text = json_encoded(json_view(args));
            &&& r is Ok <==> 8 + text.len() <= old(memory)@.len()
            &&& final(memory)@.len() == old(memory)@.len()
            &&& r is Ok ==> forall|i: int|
                0 <= i < final(memory)@.len() ==> (#[trigger] final(memory)@[i]) == if 8 <= i < 8
                    + text.len() {
                    text[i - 8]
                } else {
                    old(memory)@[i]
                }
            &&& r is Err ==> final(memory)@ == old(memory)@
        }),
{
}

/// A new function has the given backend, notes its reads where that is asked
/// for, and has read nothing.
pub proof fn law_a_new_function_has_read_nothing<D: Storage>(
    backend: D,
    notes_reads: bool,
    blob: WasmBlob<D>,
)
    requires
        call_ensures(WasmBlob::<D>::setup_blob, (backend, notes_reads), blob),
    ensures
        blob.store.inner.external_store == backend,
        blob.notes_reads == notes_reads,
        blob.store.read_keys@.len() == 0,
        !blob.store.encountered_stale,
{
}

/// A run calls the entry of the function with the place of the result, the
/// place of the arguments and their length. It starts without recorded writes
/// and changes nothing else.
pub proof fn law_a_run_starts_without_writes<D: Storage>(
    blob: &mut WasmBlob<D>,
    args_len: i32,
    call: EntryCall,
)
    requires
        call_ensures(WasmBlob::<D>::run_blob, (blob, args_len), call),
    ensures
        call.export@ == "entry"@,
        call.args == (0i32, 8i32, args_len),
        call.args == (RESULT_BASE as i32, ARGS_BASE as i32, args_len),
        final(blob).store.inner.external_store.held().writes.len() == 0,
        final(blob).store.inner.external_store.held().store
            == old(blob).store.inner.external_store.held().store,
        final(blob).store.inner.external_store.held().stale
            == old(blob).store.inner.external_store.held().stale,
        final(blob).store.read_keys@ == old(blob).store.read_keys@,
        final(blob).store.encountered_stale == old(blob).store.encountered_stale,
        final(blob).notes_reads == old(blob).notes_reads,
{
}

/// A guess calls the guess of the function with the place of the result, the
/// place of the arguments and their length.
pub proof fn law_a_guess_calls_the_guess<D: Storage>(
    blob: WasmBlob<D>,
    args_len: i32,
    call: EntryCall,
)
    requires
        call_ensures(WasmBlob::<D>::guess_key, (&blob, args_len), call),
    ensures
        call.export@ == "key_guess"@,
        call.args == (0i32, 8i32, args_len),
        call.args == (RESULT_BASE as i32, ARGS_BASE as i32, args_len),
{
}

/// A key is listed among the stale ones, under its table.
pub open spec fn listed(stale: Seq<StaleKeyView>, table: Seq<char>, key: Seq<u8>) -> bool {
    exists|i: int|
        0 <= i < stale.len() && (#[trigger] stale[i]).table == table && stale[i].key == key
}

/// A function whose reads are noted reads the key that it names, which joins
/// the keys that were read. A stale one reads as absent and is remembered.
pub proof fn law_a_noted_read_hides_a_stale_key<D: Storage>(
    blob: &mut WasmBlob<D>,
    memory: &[u8],
    call: GetKeyCall,
    step: GetStep,
)
    requires
        call_ensures(WasmBlob::<D>::get_key, (blob, memory, &call), step),
        old(blob).notes_reads,
    ensures
        ({
            let table = lossy_text(bytes_at(memory@, call.table_base, call.table_len));
            let key = bytes_at(memory@, call.key_base, call.key_len);
            let backend = old(blob).store.inner.external_store;
            let stale = listed(backend.held().stale, table, key);
            &&& final(blob).store.inner == old(blob).store.inner
            &&& final(blob).notes_reads
            &&& pair_views(final(blob).store.read_keys@) == pair_views(
                old(blob).store.read_keys@,
            ).push((table, key))
            &&& stale ==> final(blob).store.encountered_stale && (step matches GetStep::Done(None))
            &&& !stale ==> final(blob).store.encountered_stale
                == old(blob).store.encountered_stale && step@ == backend.get_result(table, key)
        }),
{
}

/// A function whose reads are not noted reads the key that it names, stale or
/// not, and leaves no trace.
pub proof fn law_an_unnoted_read_leaves_no_trace<D: Storage>(
    blob: &mut WasmBlob<D>,
    memory: &[u8],
    call: GetKeyCall,
    step: GetStep,
)
    requires
        call_ensures(WasmBlob::<D>::get_key, (blob, memory, &call), step),
        !old(blob).notes_reads,
    ensures
        final(blob).store.inner == old(blob).store.inner,
        !final(blob).notes_reads,
        pair_views(final(blob).store.read_keys@) == pair_views(old(blob).store.read_keys@),
        final(blob).store.encountered_stale == old(blob).store.encountered_stale,
        step@ == old(blob).store.inner.external_store.get_result(
            lossy_text(bytes_at(memory@, call.table_base, call.table_len)),
            bytes_at(memory@, call.key_base, call.key_len),
        ),
{
}

/// The import that reads asks the backend for the key that the function names.
pub proof fn law_an_imported_read_asks_for_its_key<D: Storage>(
    state: MyState<D>,
    memory: &[u8],
    call: GetKeyCall,
    step: GetStep,
)
    requires
        call_ensures(MyState::<D>::get_key, (&state, memory, &call), step),
    ensures
        step@ == state.external_store.get_result(
            lossy_text(bytes_at(memory@, call.table_base, call.table_len)),
            bytes_at(memory@, call.key_base, call.key_len),
        ),
{
}

/// The import that writes puts the value that the function names under the key
/// that it names, where the backend can take it, and changes nothing where it
/// cannot.
pub proof fn law_an_imported_write_puts_its_value<D: Storage>(
    state: &mut MyState<D>,
    memory: &[u8],
    call: PutKeyCall,
    step: Option<PutStep>,
)
    requires
        call_ensures(MyState::<D>::put_key, (state, memory, &call), step),
    ensures
        ({
            let table = lossy_text(bytes_at(memory@, call.table_base, call.table_len));
            let key = bytes_at(memory@, call.key_base, call.key_len);
            let value = bytes_at(memory@, call.value_base, call.value_len);
            let backend = old(state).external_store;
            if backend.can_put(table, key, value) {
                &&& step matches Some(s) && s@ == backend.put_result(table, key, value)
                &&& final(state).external_store.held() == backend.held_after_put(
                    table,
                    key,
                    value,
                )
            } else {
                step is None && *final(state) == *old(state)
            }
        }),
{
}

/// A reset forgets the writes of the function and nothing else.
pub proof fn law_a_reset_forgets_the_writes<D: Storage>(state: &mut MyState<D>)
    requires
        call_ensures(MyState::<D>::reset_writes, (state,), ()),
    ensures
        final(state).external_store.held().writes.len() == 0,
        final(state).external_store.held().store == old(state).external_store.held().store,
        final(state).external_store.held().stale == old(state).external_store.held().stale,
{
}

/// The writes of the function are given out whole and in order.
pub proof fn law_the_writes_are_given_out<D: Storage>(state: MyState<D>, writes: Vec<Value>)
    requires
        call_ensures(MyState::<D>::get_all_writes, (&state,), writes),
    ensures
        json_views(writes@) == state.external_store.held().writes,
{
}

/// A backend of which nothing has been read knows of no stale read.
pub proof fn law_a_new_wrapper_has_read_nothing<D: Storage>(
    inner: MyState<D>,
    wrapper: StorageWrapper<D>,
)
    requires
        call_ensures(StorageWrapper::<D>::new, (inner,), wrapper),
    ensures
        wrapper.inner == inner,
        wrapper.read_keys@.len() == 0,
        !wrapper.encountered_stale,
{
}

/// A read is noted whole, behind the ones before it. A stale key reads as
/// absent and is remembered; any other is asked for.
pub proof fn law_a_wrapped_read_is_noted<D: Storage>(
    wrapper: &mut StorageWrapper<D>,
    table: String,
    key: Vec<u8>,
    step: GetStep,
)
    requires
        call_ensures(StorageWrapper::<D>::get, (wrapper, table, &key), step),
    ensures
        ({
            let backend = old(wrapper).inner.external_store;
            let stale = listed(backend.held().stale, table@, key@);
            &&& final(wrapper).inner == old(wrapper).inner
            &&& pair_views(final(wrapper).read_keys@) == pair_views(
                old(wrapper).read_keys@,
            ).push((table@, key@))
            &&& stale ==> final(wrapper).encountered_stale && (step matches GetStep::Done(None))
            &&& !stale ==> final(wrapper).encountered_stale == old(wrapper).encountered_stale
                && step@ == backend.get_result(table@, key@)
        }),
{
}

/// A write is handed to the backend and is no read.
pub proof fn law_a_wrapped_write_is_no_read<D: Storage>(
    wrapper: &mut StorageWrapper<D>,
    table: String,
    key: Vec<u8>,
    value: Vec<u8>,
    step: PutStep,
)
    requires
        call_ensures(StorageWrapper::<D>::put, (wrapper, table, key, value), step),
    ensures
        step@ == old(wrapper).inner.external_store.put_result(table@, key@, value@),
        final(wrapper).inner.external_store.held()
            == old(wrapper).inner.external_store.held_after_put(table@, key@, value@),
        final(wrapper).read_keys@ == old(wrapper).read_keys@,
        final(wrapper).encountered_stale == old(wrapper).encountered_stale,
{
}

/// A write that is tried is handed to the backend where it can take it, changes
/// nothing where it cannot, and is no read.
pub proof fn law_a_wrapped_tried_write_is_no_read<D: Storage>(
    wrapper: &mut StorageWrapper<D>,
    table: String,
    key: Vec<u8>,
    value: Vec<u8>,
    step: Option<PutStep>,
)
    requires
        call_ensures(StorageWrapper::<D>::try_put, (wrapper, table, key, value), step),
    ensures
        ({
            let backend = old(wrapper).inner.external_store;
            if backend.can_put(table@, key@, value@) {
                &&& step matches Some(s) && s@ == backend.put_result(table@, key@, value@)
                &&& final(wrapper).inner.external_store.held() == backend.held_after_put(
                    table@,
                    key@,
                    value@,
                )
            } else {
                step is None && *final(wrapper) == *old(wrapper)
            }
        }),
        final(wrapper).read_keys@ == old(wrapper).read_keys@,
        final(wrapper).encountered_stale == old(wrapper).encountered_stale,
{
}

/// A wrapper whose flag covers its reads says exactly whether one of the keys
/// that were read is listed as stale.
pub proof fn law_the_flag_tells_of_a_stale_read<D: Storage>(wrapper: StorageWrapper<D>)
    requires
        wrapper.flag_covers_reads(),
    ensures
        wrapper.encountered_stale <==> exists|i: int|
            0 <= i < wrapper.read_keys@.len() && listed(
                wrapper.inner.external_store.held().stale,
                (#[trigger] wrapper.read_keys@[i]).0@,
                wrapper.read_keys@[i].1@,
            ),
{
    let stale = wrapper.inner.external_store.held().stale;
    let reads = wrapper.read_keys@;
    let views = pair_views(reads);
    law_pairs_are_seen_one_by_one(reads);
    if wrapper.encountered_stale {
        let i = choose|i: int|
            0 <= i < views.len() && is_stale(stale, (#[trigger] views[i]).0, views[i].1);
        assert(listed(stale, reads[i].0@, reads[i].1@));
    }
    if exists|i: int|
        0 <= i < reads.len() && listed(stale, (#[trigger] reads[i]).0@, reads[i].1@) {
        let i = choose|i: int|
            0 <= i < reads.len() && listed(stale, (#[trigger] reads[i]).0@, reads[i].1@);
        assert(is_stale(stale, views[i].0, views[i].1));
    }
}

/// A read whose table and key lie inside the memory can be read, by the call
/// and by the imports.
pub proof fn law_what_lies_inside_can_be_read<D: Storage>(
    call: GetKeyCall,
    memory: &[u8],
    state: MyState<D>,
    blob: &mut WasmBlob<D>,
)
    requires
        lies_within(memory@.len(), call.table_base, call.table_len),
        lies_within(memory@.len(), call.key_base, call.key_len),
    ensures
        call_requires(GetKeyCall::read, (&call, memory)),
        call_requires(MyState::<D>::get_key, (&state, memory, &call)),
        call_requires(WasmBlob::<D>::get_key, (blob, memory, &call)),
{
}

/// A write whose table, key and value lie inside the memory can be read, by the
/// call and by the import.
pub proof fn law_what_lies_inside_can_be_written<D: Storage>(
    call: PutKeyCall,
    memory: &[u8],
    state: &mut MyState<D>,
)
    requires
        lies_within(memory@.len(), call.table_base, call.table_len),
        lies_within(memory@.len(), call.key_base, call.key_len),
        lies_within(memory@.len(), call.value_base, call.value_len),
    ensures
        call_requires(PutKeyCall::read, (&call, memory)),
        call_requires(MyState::<D>::put_key, (state, memory, &call)),
{
}

/// A read can be answered where the memory has room for the value and for the
/// header.
pub proof fn law_what_has_room_can_be_answered(
    call: GetKeyCall,
    memory: &mut [u8],
    stored: Option<(i64, Vec<u8>)>,
)
    requires
        bytes_given(stored).len() <= old(memory)@.len(),
        call.result_base + 8 <= old(memory)@.len(),
    ensures
        call_requires(GetKeyCall::answer, (&call, memory, stored)),
{
}

/// A result can be read where its header points inside the memory, below the
/// sign bit of a word, or where there is no header.
pub proof fn law_what_a_header_points_to_can_be_read(memory: &[u8], offset: usize)
    requires
        offset + 8 <= memory@.len() ==> {
            &&& number_at(memory@, offset as int) < 0x80000000
            &&& number_at(memory@, offset + 4) < 0x80000000
            &&& number_at(memory@, offset as int) + number_at(memory@, offset + 4) <= memory@.len()
        },
    ensures
        call_requires(read_result_from_wasm, (memory, offset)),
{
}

} // verus!
