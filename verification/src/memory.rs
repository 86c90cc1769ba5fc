//! Reading and writing the linear memory of an instance.
//!
//! A range is given by the offset of its first byte and by its length. It is
//! served only if it lies inside the memory: neither number is negative, and
//! their sum is no more than the size of the memory.

use vstd::prelude::*;
use crate::engine::{memory_bytes, memory_size, overwrite, read_memory, write_memory};
use crate::error::{invalid_handle, result_view, StringErr};
use crate::export::{find_linear_memory, linear_memory};
use crate::table::InstanceTable;

verus! {

/// Whether the `len` bytes from `off` on lie inside a memory of `size` bytes.
pub open spec fn range_in_bounds(off: int, len: int, size: int) -> bool {
    0 <= off && 0 <= len && off + len <= size
}

/// The message for a range that does not lie inside the memory.
pub open spec fn access_overflow() -> Seq<char> {
    "memory access overflow"@
}

/// What reading `len` bytes from `off` on in the memory of the instance
/// under `descriptor` gives: the bytes, or the message of the failure.
pub open spec fn memory_read(table: InstanceTable, descriptor: i64, off: i32, len: i32) -> Result<
    Seq<u8>,
    Seq<char>,
> {
    if !table.is_live(descriptor) {
        Err(invalid_handle())
    } else {
        let context = table.context(descriptor);
        match linear_memory(context.instance, context.store) {
            Err(message) => Err(message),
            Ok(memory) => {
                let bytes = memory_bytes(context.store, memory);
                if range_in_bounds(off as int, len as int, bytes.len() as int) {
                    Ok(bytes.subrange(off as int, off + len))
                } else {
                    Err(access_overflow())
                }
            },
        }
    }
}

/// Whether writing `data` from `off` on in the memory of the instance under
/// `descriptor` succeeds, and if not, the message of the failure.
pub open spec fn memory_write(table: InstanceTable, descriptor: i64, off: i32, data: Seq<u8>) -> Result<
    (),
    Seq<char>,
> {
    if !table.is_live(descriptor) {
        Err(invalid_handle())
    } else {
        let context = table.context(descriptor);
        match linear_memory(context.instance, context.store) {
            Err(message) => Err(message),
            Ok(memory) => {
                let bytes = memory_bytes(context.store, memory);
                if range_in_bounds(off as int, data.len() as int, bytes.len() as int) {
                    Ok(())
                } else {
                    Err(access_overflow())
                }
            },
        }
    }
}

/// How a table stands after `data` was written from `off` on into the memory
/// of the instance under `descriptor`, against how it stood before: that
/// memory holds `data` over what it held, the instance is still the one it
/// was, and every other handle names what it named.
pub open spec fn memory_written(
    before: InstanceTable,
    after: InstanceTable,
    descriptor: i64,
    off: i32,
    data: Seq<u8>,
) -> bool {
    let was = before.context(descriptor);
    let now = after.context(descriptor);
    let memory = linear_memory(was.instance, was.store)->Ok_0;
    &&& after@ == before@.update(descriptor - 1, Some(now))
    &&& now.instance == was.instance
    &&& linear_memory(now.instance, now.store) == Ok::<wasmer::Memory, Seq<char>>(memory)
    &&& memory_bytes(now.store, memory) == overwrite(
        memory_bytes(was.store, memory),
        off as int,
        data,
    )
}

/// Copies `len` bytes out of the linear memory of the instance under
/// `descriptor`, from byte `off` on.
///
/// Fails if `descriptor` names no live instance, if the instance has no
/// linear memory, or if the range does not lie inside the memory.
pub fn get_memory(table: &InstanceTable, descriptor: i64, off: i32, len: i32) -> (r: Result<
    Vec<u8>,
    StringErr,
>)
    ensures
        result_view(r) == memory_read(*table, descriptor, off, len),
{
    let context = match table.get(descriptor) {
        Some(context) => context,
        None => {
            return Err(StringErr::new("invalid instance handle"));
        },
    };
    let memory = match find_linear_memory(&context.instance, &context.store) {
        Ok(memory) => memory,
        Err(e) => {
            return Err(e);
        },
    };
    let size: u64 = memory_size(memory, &context.store);
    if off < 0 || len < 0 || off as u64 + len as u64 > size {
        return Err(StringErr::new("memory access overflow"));
    }
    let start: u64 = off as u64;
    let end: u64 = start + len as u64;
    match read_memory(memory, &context.store, start, end) {
        Ok(bytes) => Ok(bytes),
        Err(_) => Err(StringErr::new("memory access error")),
    }
}

/// Copies `buf` into the linear memory of the instance under `descriptor`,
/// from byte `off` on.
///
/// Fails, and writes nothing, if `descriptor` names no live instance, if the
/// instance has no linear memory, or if the range does not lie inside the
/// memory.
pub fn set_memory(table: &mut InstanceTable, descriptor: i64, off: i32, buf: &[u8]) -> (r: Result<
    (),
    StringErr,
>)
    ensures
        result_view(r) == memory_write(*old(table), descriptor, off, buf@),
        r is Err ==> final(table)@ == old(table)@,
        r is Ok ==> memory_written(*old(table), *final(table), descriptor, off, buf@),
{
    let context = match table.get_mut(descriptor) {
        Some(context) => context,
        None => {
            return Err(StringErr::new("invalid instance handle"));
        },
    };
    let memory = match find_linear_memory(&context.instance, &context.store) {
        Ok(memory) => memory,
        Err(e) => {
            return Err(e);
        },
    };
    let size: u64 = memory_size(memory, &context.store);
    if off < 0 || buf.len() as u64 > size || off as u64 > size - buf.len() as u64 {
        return Err(StringErr::new("memory access overflow"));
    }
    match write_memory(memory, &mut context.store, off as u64, buf) {
        Ok(_) => Ok(()),
        Err(_) => Err(StringErr::new("memory access error")),
    }
}

/// Bytes written over a range are what the range holds afterwards; the bytes
/// outside it, and the length, stay what they were.
pub proof fn lemma_overwrite(bytes: Seq<u8>, at: int, data: Seq<u8>)
    requires
        range_in_bounds(at, data.len() as int, bytes.len() as int),
    ensures
        overwrite(bytes, at, data).len() == bytes.len(),
        overwrite(bytes, at, data).subrange(at, at + data.len()) == data,
        forall|i: int|
            0 <= i < bytes.len() && !(at <= i < at + data.len()) ==> overwrite(bytes, at, data)[i]
                == bytes[i],
{
    assert(overwrite(bytes, at, data).subrange(at, at + data.len()) =~= data);
}

/// What a write has put into a memory is what a read of the same range
/// gives next.
pub proof fn lemma_read_back(
    before: InstanceTable,
    after: InstanceTable,
    descriptor: i64,
    off: i32,
    data: Seq<u8>,
)
    requires
        memory_write(before, descriptor, off, data) is Ok,
        memory_written(before, after, descriptor, off, data),
        data.len() <= i32::MAX,
    ensures
        memory_read(after, descriptor, off, data.len() as i32) == Ok::<Seq<u8>, Seq<char>>(data),
{
    let was = before.context(descriptor);
    let memory = linear_memory(was.instance, was.store)->Ok_0;
    lemma_overwrite(memory_bytes(was.store, memory), off as int, data);
}

/// A write changes no read of a range that lies wholly before or wholly
/// after the range written.
pub proof fn lemma_write_frame(
    before: InstanceTable,
    after: InstanceTable,
    descriptor: i64,
    off: i32,
    data: Seq<u8>,
    at: i32,
    len: i32,
)
    requires
        memory_write(before, descriptor, off, data) is Ok,
        memory_written(before, after, descriptor, off, data),
        at + len <= off || off + data.len() <= at,
    ensures
        memory_read(after, descriptor, at, len) == memory_read(before, descriptor, at, len),
{
    let was = before.context(descriptor);
    let memory = linear_memory(was.instance, was.store)->Ok_0;
    let bytes = memory_bytes(was.store, memory);
    lemma_overwrite(bytes, off as int, data);
    if range_in_bounds(at as int, len as int, bytes.len() as int) {
        assert(overwrite(bytes, off as int, data).subrange(at as int, at + len) =~= bytes.subrange(
            at as int,
            at + len,
        ));
    }
}

} // verus!
