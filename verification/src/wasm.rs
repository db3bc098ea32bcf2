//! The memory protocol between the host and a WebAssembly function.
//!
//! A function finds its arguments at a fixed place of its linear memory. It
//! hands texts and bytes to the host as a base and a length, and both sides
//! leave a result behind a header of two little-endian words: where the result
//! starts and how long it is.

use crate::json::json_views;
use crate::storage::{GetStep, PutStep, Storage, StoreView};
use serde_json::Value;
use vstd::prelude::*;
use vstd::utf8::{decode_utf8, valid_utf8};

verus! {

/// Where the header of a function's result stands.
pub const RESULT_BASE: usize = 0;

/// Where a function finds its arguments.
pub const ARGS_BASE: usize = 8;

/// Whether a region lies within a memory.
pub open spec fn in_bounds(memory: Seq<u8>, base: int, len: int) -> bool {
    0 <= base && 0 <= len && base + len <= memory.len()
}

/// The bytes of a region.
pub open spec fn region(memory: Seq<u8>, base: int, len: int) -> Seq<u8> {
    memory.subrange(base, base + len)
}

/// A memory after bytes were written at a place.
pub open spec fn written(memory: Seq<u8>, base: int, bytes: Seq<u8>) -> Seq<u8> {
    Seq::new(
        memory.len(),
        |i: int|
            if base <= i < base + bytes.len() {
                bytes[i - base]
            } else {
                memory[i]
            },
    )
}

/// The little-endian word at a place.
pub open spec fn word_at(memory: Seq<u8>, at: int) -> int {
    memory[at] + 0x100 * memory[at + 1] + 0x10000 * memory[at + 2] + 0x1000000 * memory[at + 3]
}

/// The low four bytes of a number, in little-endian order.
pub open spec fn le_bytes(n: nat) -> Seq<u8> {
    seq![
        (n % 0x100) as u8,
        (n / 0x100 % 0x100) as u8,
        (n / 0x10000 % 0x100) as u8,
        (n / 0x1000000 % 0x100) as u8,
    ]
}

/// Whether the header at a place points to a region of the memory. A word with
/// its highest bit set counts as negative and points nowhere.
pub open spec fn result_in_bounds(memory: Seq<u8>, offset: int) -> bool {
    let base = word_at(memory, offset);
    let len = word_at(memory, offset + 4);
    base < 0x80000000 && len < 0x80000000 && in_bounds(memory, base, len)
}

/// The result behind the header at a place.
pub open spec fn result_at(memory: Seq<u8>, offset: int) -> Seq<u8> {
    region(memory, word_at(memory, offset), word_at(memory, offset + 4))
}

/// A memory after the host left a result at its end and its header at a place.
pub open spec fn with_result(memory: Seq<u8>, result_base: int, result: Seq<u8>) -> Seq<u8> {
    let offset = memory.len() - result.len();
    let filled = written(memory, offset, result);
    let based = written(filled, result_base, le_bytes(offset as nat));
    written(based, result_base + 4, le_bytes(result.len()))
}

/// An access outside of a memory.
#[derive(Debug, PartialEq)]
pub struct MemoryAccessError;

/// The result of a function.
#[derive(Debug, PartialEq)]
pub struct WasmResult {
    pub result: Value,
}

/// The state that belongs to a running function.
#[derive(Debug)]
pub struct MyState<D: Storage> {
    pub external_store: D,
}

impl<D: Storage> MyState<D> {
    /// Forgets the writes that the function has done.
    pub fn reset_writes(&mut self)
        ensures
            final(self).external_store.held() == (StoreView {
                writes: Seq::empty(),
                ..old(self).external_store.held()
            }),
            final(self).external_store.same_kind(&old(self).external_store),
    {
        self.external_store.reset_writes();
    }

    /// The writes that the function has done, in order.
    pub fn get_all_writes(&self) -> (writes: Vec<Value>)
        ensures
            json_views(writes@) == self.external_store.held().writes,
    {
        self.external_store.get_all_writes()
    }
}

/// What `String::from_utf8_lossy` makes of bytes.
pub uninterp spec fn lossy_text(bytes: Seq<u8>) -> Seq<char>;

/// Reads bytes as text, by `String::from_utf8_lossy`: bytes that are UTF-8
/// give the text that they encode, all others a text in which what is no UTF-8
/// is replaced.
#[verifier::external_body]
pub(crate) fn text_from_utf8_lossy(bytes: &[u8]) -> (text: String)
    ensures
        text@ == lossy_text(bytes@),
        valid_utf8(bytes@) ==> text@ == decode_utf8(bytes@),
{
    String::from_utf8_lossy(bytes).into_owned()
}

/// Copies a region of a memory.
fn read_region(memory: &[u8], base: usize, len: usize) -> (bytes: Vec<u8>)
    requires
        in_bounds(memory@, base as int, len as int),
    ensures
        bytes@ == region(memory@, base as int, len as int),
{
    let size: usize = memory.len();
    let mut bytes: Vec<u8> = Vec::new();
    let mut i: usize = 0;
    while i < len
        invariant
            i <= len,
            size == memory@.len(),
            in_bounds(memory@, base as int, len as int),
            bytes@ == memory@.subrange(base as int, base + i),
        decreases len - i,
    {
        bytes.push(memory[base + i]);
        i = i + 1;
        assert(bytes@ =~= memory@.subrange(base as int, base + i));
    }
    bytes
}

/// Writes bytes into a memory.
fn write_region(memory: &mut [u8], base: usize, bytes: &[u8])
    requires
        in_bounds(old(memory)@, base as int, bytes@.len() as int),
    ensures
        final(memory)@ == written(old(memory)@, base as int, bytes@),
{
    let ghost before = memory@;
    let size: usize = memory.len();
    let mut i: usize = 0;
    while i < bytes.len()
        invariant
            i <= bytes.len(),
            size == before.len(),
            in_bounds(before, base as int, bytes@.len() as int),
            memory@.len() == before.len(),
            memory@ == written(before, base as int, bytes@.take(i as int)),
        decreases bytes.len() - i,
    {
        memory[base + i] = bytes[i];
        i = i + 1;
        assert(memory@ =~= written(before, base as int, bytes@.take(i as int)));
    }
    assert(bytes@.take(i as int) =~= bytes@);
    assert(memory@ =~= written(before, base as int, bytes@));
}

/// Reads the little-endian word at a place.
fn read_word(memory: &[u8], at: usize) -> (word: u32)
    requires
        in_bounds(memory@, at as int, 4),
    ensures
        word == word_at(memory@, at as int),
{
    memory[at] as u32 + 0x100 * memory[at + 1] as u32 + 0x10000 * memory[at + 2] as u32 + 0x1000000
        * memory[at + 3] as u32
}

/// Writes the low four bytes of a number in little-endian order.
fn write_word(memory: &mut [u8], at: usize, n: usize)
    requires
        in_bounds(old(memory)@, at as int, 4),
    ensures
        final(memory)@ == written(old(memory)@, at as int, le_bytes(n as nat)),
{
    let mut bytes: Vec<u8> = Vec::new();
    bytes.push((n % 0x100) as u8);
    bytes.push((n / 0x100 % 0x100) as u8);
    bytes.push((n / 0x10000 % 0x100) as u8);
    bytes.push((n / 0x1000000 % 0x100) as u8);
    assert(bytes@ =~= le_bytes(n as nat));
    write_region(memory, at, bytes.as_slice());
}

/// Whether the result behind the header at a place can be read: there is no
/// header there, or it points to a region of the memory.
pub fn result_readable(memory: &[u8], offset: usize) -> (readable: bool)
    ensures
        readable == (in_bounds(memory@, offset as int, 8) ==> result_in_bounds(
            memory@,
            offset as int,
        )),
{
    if memory.len() < 8 || offset > memory.len() - 8 {
        return true;
    }
    let base: u32 = read_word(memory, offset);
    let len: u32 = read_word(memory, offset + 4);
    base < 0x80000000 && len < 0x80000000 && base as usize <= memory.len() && len as usize
        <= memory.len() - base as usize
}

/// Reads the result behind the header at a place.
pub fn read_result_from_wasm(memory: &[u8], offset: usize) -> (r: Result<
    Vec<u8>,
    MemoryAccessError,
>)
    requires
        in_bounds(memory@, offset as int, 8) ==> result_in_bounds(memory@, offset as int),
    ensures
        r is Ok <==> in_bounds(memory@, offset as int, 8),
        r matches Ok(result) ==> result@ == result_at(memory@, offset as int),
{
    if memory.len() < 8 || offset > memory.len() - 8 {
        return Err(MemoryAccessError);
    }
    let base: u32 = read_word(memory, offset);
    let len: u32 = read_word(memory, offset + 4);
    Ok(read_region(memory, base as usize, len as usize))
}

/// What a function hands over to read a key: where the header of the value is
/// to go, and where table and key stand.
#[derive(Debug)]
pub struct GetKeyCall {
    pub result_base: u32,
    pub table_base: u32,
    pub table_len: u32,
    pub key_base: u32,
    pub key_len: u32,
}

impl GetKeyCall {
    /// The table and the key lie within the memory.
    pub open spec fn readable(self, memory: Seq<u8>) -> bool {
        &&& in_bounds(memory, self.table_base as int, self.table_len as int)
        &&& in_bounds(memory, self.key_base as int, self.key_len as int)
    }

    /// A value and its header have room in the memory.
    pub open spec fn has_room(self, memory: Seq<u8>, value_len: int) -> bool {
        &&& value_len <= memory.len()
        &&& in_bounds(memory, self.result_base as int, 8)
    }

    /// Whether the table and the key lie within the memory.
    pub fn is_readable(&self, memory: &[u8]) -> (readable: bool)
        ensures
            readable == self.readable(memory@),
    {
        fits(memory, self.table_base, self.table_len) && fits(memory, self.key_base, self.key_len)
    }

    /// Reads the table and the key.
    pub fn read(&self, memory: &[u8]) -> (pair: (String, Vec<u8>))
        requires
            self.readable(memory@),
        ensures
            pair.0@ == lossy_text(
                region(memory@, self.table_base as int, self.table_len as int),
            ),
            valid_utf8(region(memory@, self.table_base as int, self.table_len as int))
                ==> pair.0@ == decode_utf8(
                region(memory@, self.table_base as int, self.table_len as int),
            ),
            pair.1@ == region(memory@, self.key_base as int, self.key_len as int),
    {
        let table: Vec<u8> = read_region(
            memory,
            self.table_base as usize,
            self.table_len as usize,
        );
        let key: Vec<u8> = read_region(memory, self.key_base as usize, self.key_len as usize);
        (text_from_utf8_lossy(table.as_slice()), key)
    }

    /// Whether a value and its header have room in the memory.
    pub fn is_answerable(&self, memory: &[u8], stored: &Option<(i64, Vec<u8>)>) -> (room: bool)
        ensures
            room == self.has_room(memory@, value_of(*stored).len() as int),
    {
        let len: usize = match stored {
            Some((_, value)) => value.len(),
            None => 0,
        };
        len <= memory.len() && fits(memory, self.result_base, 8)
    }

    /// Leaves the value of the key, or nothing for an unknown key, at the end
    /// of the memory, and then its header where the function asked for it.
    pub fn answer(&self, memory: &mut [u8], stored: Option<(i64, Vec<u8>)>)
        requires
            self.has_room(old(memory)@, value_of(stored).len() as int),
        ensures
            final(memory)@ == with_result(
                old(memory)@,
                self.result_base as int,
                value_of(stored),
            ),
    {
        let value: Vec<u8> = match stored {
            Some((_, value)) => value,
            None => Vec::new(),
        };
        assert(value@ =~= value_of(stored));
        let offset: usize = memory.len() - value.len();
        let base: usize = self.result_base as usize;
        write_region(memory, offset, value.as_slice());
        write_word(memory, base, offset);
        write_word(memory, base + 4, value.len());
    }
}

/// The bytes that a function gets for a key: nothing for an unknown one.
pub open spec fn value_of(stored: Option<(i64, Vec<u8>)>) -> Seq<u8> {
    match stored {
        Some((_, value)) => value@,
        None => Seq::empty(),
    }
}

/// Whether a region lies within a memory.
fn fits(memory: &[u8], base: u32, len: u32) -> (fit: bool)
    ensures
        fit == in_bounds(memory@, base as int, len as int),
{
    base as usize <= memory.len() && len as usize <= memory.len() - base as usize
}

/// What a function hands over to write a key: where table, key and value stand.
#[derive(Debug)]
pub struct PutKeyCall {
    pub table_base: u32,
    pub table_len: u32,
    pub key_base: u32,
    pub key_len: u32,
    pub value_base: u32,
    pub value_len: u32,
}

impl PutKeyCall {
    /// The table, the key and the value lie within the memory.
    pub open spec fn readable(self, memory: Seq<u8>) -> bool {
        &&& in_bounds(memory, self.table_base as int, self.table_len as int)
        &&& in_bounds(memory, self.key_base as int, self.key_len as int)
        &&& in_bounds(memory, self.value_base as int, self.value_len as int)
    }

    /// Whether the table, the key and the value lie within the memory.
    pub fn is_readable(&self, memory: &[u8]) -> (readable: bool)
        ensures
            readable == self.readable(memory@),
    {
        fits(memory, self.table_base, self.table_len) && fits(memory, self.key_base, self.key_len)
            && fits(memory, self.value_base, self.value_len)
    }

    /// Reads the table, the key and the value.
    pub fn read(&self, memory: &[u8]) -> (write: (String, Vec<u8>, Vec<u8>))
        requires
            self.readable(memory@),
        ensures
            write.0@ == lossy_text(
                region(memory@, self.table_base as int, self.table_len as int),
            ),
            valid_utf8(region(memory@, self.table_base as int, self.table_len as int))
                ==> write.0@ == decode_utf8(
                region(memory@, self.table_base as int, self.table_len as int),
            ),
            write.1@ == region(memory@, self.key_base as int, self.key_len as int),
            write.2@ == region(memory@, self.value_base as int, self.value_len as int),
    {
        let table: Vec<u8> = read_region(
            memory,
            self.table_base as usize,
            self.table_len as usize,
        );
        let key: Vec<u8> = read_region(memory, self.key_base as usize, self.key_len as usize);
        let value: Vec<u8> = read_region(
            memory,
            self.value_base as usize,
            self.value_len as usize,
        );
        (text_from_utf8_lossy(table.as_slice()), key, value)
    }
}

impl<D: Storage> MyState<D> {
    /// The import that reads a key: asks the backend for the key that a
    /// function names in its memory.
    pub fn get_key(&self, memory: &[u8], call: &GetKeyCall) -> (step: GetStep)
        requires
            call.readable(memory@),
        ensures
            step@ == self.external_store.get_result(
                lossy_text(region(memory@, call.table_base as int, call.table_len as int)),
                region(memory@, call.key_base as int, call.key_len as int),
            ),
    {
        let (table, key): (String, Vec<u8>) = call.read(memory);
        self.external_store.get(table, &key)
    }

    /// The import that writes a key: puts the value that a function names in
    /// its memory, if the backend can hold it, and changes nothing if not.
    pub fn put_key(&mut self, memory: &[u8], call: &PutKeyCall) -> (step: Option<PutStep>)
        requires
            call.readable(memory@),
        ensures
            ({
                let table = lossy_text(
                    region(memory@, call.table_base as int, call.table_len as int),
                );
                let key = region(memory@, call.key_base as int, call.key_len as int);
                let value = region(memory@, call.value_base as int, call.value_len as int);
                let before = old(self).external_store;
                &&& step is Some <==> before.can_put(table, key, value)
                &&& step matches Some(s) ==> s@ == before.put_result(table, key, value)
                &&& step is Some ==> final(self).external_store.held() == before.held_after_put(
                    table,
                    key,
                    value,
                )
                &&& step is None ==> *final(self) == *old(self)
                &&& final(self).external_store.same_kind(&before)
            }),
    {
        let (table, key, value): (String, Vec<u8>, Vec<u8>) = call.read(memory);
        self.external_store.try_put(table, key, value)
    }
}

/// Leaves the arguments of a function where it looks for them.
pub fn write_args(memory: &mut [u8], args: &[u8]) -> (r: Result<(), MemoryAccessError>)
    ensures
        r is Ok <==> in_bounds(old(memory)@, ARGS_BASE as int, args@.len() as int),
        r is Ok ==> final(memory)@ == written(old(memory)@, ARGS_BASE as int, args@),
        r is Err ==> final(memory)@ == old(memory)@,
{
    if memory.len() < ARGS_BASE || args.len() > memory.len() - ARGS_BASE {
        return Err(MemoryAccessError);
    }
    write_region(memory, ARGS_BASE, args);
    Ok(())
}

/// The bytes of a word stand for it.
proof fn lemma_word_of_le_bytes(n: nat)
    requires
        n < 0x100000000,
    ensures
        le_bytes(n)[0] + 0x100 * le_bytes(n)[1] + 0x10000 * le_bytes(n)[2] + 0x1000000 * le_bytes(
            n,
        )[3] == n,
{
    let b = n / 0x100;
    let c = n / 0x10000;
    let d = n / 0x1000000;
    assert(c == b / 0x100);
    assert(d == c / 0x100);
    assert(d < 0x100);
}

/// What the host left for a function is what a reader of the header finds: the
/// value of the key. The value and the header must not overlap, and the value
/// must start below the sign bit of a word.
pub proof fn law_result_is_read_back(memory: Seq<u8>, result_base: int, result: Seq<u8>)
    requires
        result.len() <= memory.len(),
        0 <= result_base,
        result_base + 8 <= memory.len() - result.len(),
        memory.len() - result.len() < 0x80000000,
        result.len() < 0x80000000,
    ensures
        result_in_bounds(with_result(memory, result_base, result), result_base),
        result_at(with_result(memory, result_base, result), result_base) == result,
{
    let offset = memory.len() - result.len();
    let after = with_result(memory, result_base, result);
    lemma_word_of_le_bytes(offset as nat);
    lemma_word_of_le_bytes(result.len());
    assert(word_at(after, result_base) == offset);
    assert(word_at(after, result_base + 4) == result.len());
    assert(result_at(after, result_base) =~= result);
}

/// The host touches nothing but the value's place and its header.
pub proof fn law_result_leaves_the_rest(
    memory: Seq<u8>,
    result_base: int,
    result: Seq<u8>,
    at: int,
)
    requires
        result.len() <= memory.len(),
        in_bounds(memory, result_base, 8),
        0 <= at < memory.len() - result.len(),
        at < result_base || result_base + 8 <= at,
    ensures
        with_result(memory, result_base, result)[at] == memory[at],
        with_result(memory, result_base, result).len() == memory.len(),
{
}

} // verus!
