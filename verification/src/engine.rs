//! What this crate takes on trust from the WebAssembly engine.
//!
//! The engine's types are opaque to the verifier. Each function here makes
//! one kind of call into the engine and carries a contract that is believed,
//! not proved; the contracts speak of the engine's state through the
//! uninterpreted functions declared below. Everything else in the crate is
//! proved from these contracts.
//!
//! The engine keeps what lives in a store behind the store and lets a memory
//! be written through a shared borrow of it. The contracts here treat the
//! store as the owner of its memories: a memory changes only where the store
//! is borrowed mutably. That holds of everything this crate does; it does not
//! hold of a memory that another thread writes to at the same time.

use vstd::prelude::*;
use crate::value::ValueType;

verus! {

/// The engine's instance of a module.
#[verifier::external_type_specification]
#[verifier::external_body]
pub struct ExInstance(wasmer::Instance);

/// The engine's store: the owner of what instances are made of.
#[verifier::external_type_specification]
#[verifier::external_body]
pub struct ExStore(wasmer::Store);

/// The engine's handle of a linear memory in a store.
#[verifier::external_type_specification]
#[verifier::external_body]
pub struct ExMemory(wasmer::Memory);

/// The engine's handle of a function in a store.
#[verifier::external_type_specification]
#[verifier::external_body]
pub struct ExFunction(wasmer::Function);

/// The engine's error for an access outside a memory.
#[verifier::external_type_specification]
#[verifier::external_body]
pub struct ExMemoryAccessError(wasmer::MemoryAccessError);

/// What an instance can export under a name.
#[derive(Clone, Copy, Debug, PartialEq, Eq, Structural)]
pub enum ExportKind {
    Function,
    Global,
    Table,
    Memory,
    Tag,
}

/// Why an export could not be had.
#[derive(Clone, Copy, Debug, PartialEq, Eq, Structural)]
pub enum ExportFailure {
    /// The instance exports nothing under the name.
    Missing,
    /// The instance exports something of another kind under the name.
    IncompatibleType,
}

/// The names that `instance` exports, each with the kind of what it names.
pub uninterp spec fn export_kinds(instance: wasmer::Instance) -> Map<Seq<char>, ExportKind>;

/// The memory that `instance` exports as `name`.
pub uninterp spec fn exported_memory(instance: wasmer::Instance, name: Seq<char>) -> wasmer::Memory;

/// The function that `instance` exports as `name`.
pub uninterp spec fn exported_function(instance: wasmer::Instance, name: Seq<char>) -> wasmer::Function;

/// Whether `memory` lives in `store`.
pub uninterp spec fn memory_in_store(store: wasmer::Store, memory: wasmer::Memory) -> bool;

/// Whether `function` lives in `store`.
pub uninterp spec fn function_in_store(store: wasmer::Store, function: wasmer::Function) -> bool;

/// The bytes that `memory`, which lives in `store`, holds.
pub uninterp spec fn memory_bytes(store: wasmer::Store, memory: wasmer::Memory) -> Seq<u8>;

/// The kinds of the parameters of `function`, which lives in `store`.
pub uninterp spec fn function_params(store: wasmer::Store, function: wasmer::Function) -> Seq<ValueType>;

/// `bytes` with `data` written over it from index `at` on.
pub open spec fn overwrite(bytes: Seq<u8>, at: int, data: Seq<u8>) -> Seq<u8> {
    Seq::new(
        bytes.len(),
        |i: int|
            if at <= i < at + data.len() {
                data[i - at]
            } else {
                bytes[i]
            },
    )
}

/// `Exports::get_memory` on the exports of `instance`. The engine keeps its
/// exports in a map from names to externals: it answers with the memory under
/// `name`, says that nothing is exported under that name, or says that what is
/// exported there is no memory.
#[verifier::external_body]
pub(crate) fn find_memory<'a>(instance: &'a wasmer::Instance, name: &str) -> (r: Result<
    &'a wasmer::Memory,
    ExportFailure,
>)
    ensures
        match r {
            Ok(memory) => export_kinds(*instance).contains_key(name@) && export_kinds(
                *instance,
            )[name@] == ExportKind::Memory && *memory == exported_memory(*instance, name@),
            Err(ExportFailure::Missing) => !export_kinds(*instance).contains_key(name@),
            Err(ExportFailure::IncompatibleType) => export_kinds(*instance).contains_key(name@)
                && export_kinds(*instance)[name@] != ExportKind::Memory,
        },
{
    match instance.exports.get_memory(name) {
        Ok(memory) => Ok(memory),
        Err(wasmer::ExportError::Missing(_)) => Err(ExportFailure::Missing),
        Err(wasmer::ExportError::IncompatibleType) => Err(ExportFailure::IncompatibleType),
    }
}

/// `Exports::get_function` on the exports of `instance`: as for a memory.
#[verifier::external_body]
pub(crate) fn find_function<'a>(instance: &'a wasmer::Instance, name: &str) -> (r: Result<
    &'a wasmer::Function,
    ExportFailure,
>)
    ensures
        match r {
            Ok(function) => export_kinds(*instance).contains_key(name@) && export_kinds(
                *instance,
            )[name@] == ExportKind::Function && *function == exported_function(*instance, name@),
            Err(ExportFailure::Missing) => !export_kinds(*instance).contains_key(name@),
            Err(ExportFailure::IncompatibleType) => export_kinds(*instance).contains_key(name@)
                && export_kinds(*instance)[name@] != ExportKind::Function,
        },
{
    match instance.exports.get_function(name) {
        Ok(function) => Ok(function),
        Err(wasmer::ExportError::Missing(_)) => Err(ExportFailure::Missing),
        Err(wasmer::ExportError::IncompatibleType) => Err(ExportFailure::IncompatibleType),
    }
}

/// `Memory::is_from_store`: whether `store` is the store that the memory was
/// made in.
#[verifier::external_body]
pub(crate) fn memory_is_from_store(memory: &wasmer::Memory, store: &wasmer::Store) -> (r: bool)
    ensures
        r == memory_in_store(*store, *memory),
{
    memory.is_from_store(store)
}

/// `Function::is_from_store`: whether `store` is the store that the function
/// was made in.
#[verifier::external_body]
pub(crate) fn function_is_from_store(function: &wasmer::Function, store: &wasmer::Store) -> (r:
    bool)
    ensures
        r == function_in_store(*store, *function),
{
    function.is_from_store(store)
}

/// `MemoryView::data_size` on a fresh view of `memory` (`Memory::view`): the
/// number of bytes that the memory holds. The engine panics on a memory of
/// another store.
#[verifier::external_body]
pub(crate) fn memory_size(memory: &wasmer::Memory, store: &wasmer::Store) -> (size: u64)
    requires
        memory_in_store(*store, *memory),
    ensures
        size == memory_bytes(*store, *memory).len(),
{
    memory.view(store).data_size()
}

/// `MemoryView::copy_range_to_vec` on a fresh view of `memory`
/// (`Memory::view`): for a range inside the memory, the engine answers with a
/// copy of the bytes of the range. It panics on a memory of another store.
#[verifier::external_body]
pub(crate) fn read_memory(memory: &wasmer::Memory, store: &wasmer::Store, start: u64, end: u64) -> (r:
    Result<Vec<u8>, wasmer::MemoryAccessError>)
    requires
        memory_in_store(*store, *memory),
        start <= end <= memory_bytes(*store, *memory).len(),
    ensures
        r is Ok,
        r->Ok_0@ == memory_bytes(*store, *memory).subrange(start as int, end as int),
{
    memory.view(store).copy_range_to_vec(start..end)
}

/// `MemoryView::write` on a fresh view of `memory` (`Memory::view`). The
/// engine writes all of `data` at `offset` if that range lies inside the
/// memory, and otherwise writes nothing and reports an error. The memory stays
/// in its store. The engine panics on a memory of another store. It writes
/// through a shared borrow of the store; here the store is borrowed mutably,
/// so that the change shows.
#[verifier::external_body]
pub(crate) fn write_memory(
    memory: &wasmer::Memory,
    store: &mut wasmer::Store,
    offset: u64,
    data: &[u8],
) -> (r: Result<(), wasmer::MemoryAccessError>)
    requires
        memory_in_store(*old(store), *memory),
    ensures
        r is Ok <==> offset + data@.len() <= memory_bytes(*old(store), *memory).len(),
        r is Ok ==> memory_bytes(*final(store), *memory) == overwrite(
            memory_bytes(*old(store), *memory),
            offset as int,
            data@,
        ),
        r is Err ==> memory_bytes(*final(store), *memory) == memory_bytes(*old(store), *memory),
        memory_in_store(*final(store), *memory),
{
    memory.view(store).write(offset, data)
}

/// `Function::ty` and `FunctionType::params`: the kinds of the parameters in
/// the signature of `function`, in order. The engine panics on a function of
/// another store.
#[verifier::external_body]
pub(crate) fn function_param_types(function: &wasmer::Function, store: &wasmer::Store) -> (r: Vec<
    ValueType,
>)
    requires
        function_in_store(*store, *function),
    ensures
        r@ == function_params(*store, *function),
{
    function.ty(store).params().iter().map(|ty| match ty {
        wasmer::Type::I32 => ValueType::I32,
        wasmer::Type::I64 => ValueType::I64,
        wasmer::Type::F32 => ValueType::F32,
        wasmer::Type::F64 => ValueType::F64,
        wasmer::Type::V128 => ValueType::V128,
        wasmer::Type::ExternRef => ValueType::ExternRef,
        wasmer::Type::FuncRef => ValueType::FuncRef,
        wasmer::Type::ExceptionRef => ValueType::ExceptionRef,
    }).collect()
}

} // verus!
