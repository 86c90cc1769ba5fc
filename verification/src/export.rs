//! Finding what an instance exports.
//!
//! An export is usable here only if it lives in the store that the instance
//! runs in: the engine refuses to work on an object with another store.

use vstd::prelude::*;
use vstd::string::StringExecFns;
use crate::engine::{
    export_kinds, exported_function, exported_memory, find_function, find_memory,
    function_in_store, function_is_from_store, memory_in_store, memory_is_from_store,
    ExportFailure, ExportKind,
};
use crate::error::StringErr;

verus! {

/// The message for an export that is looked up under `name` and fails with
/// `failure`.
pub open spec fn export_failure(failure: ExportFailure, name: Seq<char>) -> Seq<char> {
    match failure {
        ExportFailure::Missing => "Missing export "@ + name,
        ExportFailure::IncompatibleType => "Incompatible Export Type"@,
    }
}

/// The linear memory of `instance`, which runs in `store`: what it exports as
/// `memory`, which has to be a memory of that store. Otherwise the message of
/// the failure.
pub open spec fn linear_memory(instance: wasmer::Instance, store: wasmer::Store) -> Result<
    wasmer::Memory,
    Seq<char>,
> {
    let kinds = export_kinds(instance);
    let memory = exported_memory(instance, "memory"@);
    if !kinds.contains_key("memory"@) {
        Err(export_failure(ExportFailure::Missing, "memory"@))
    } else if kinds["memory"@] != ExportKind::Memory {
        Err(export_failure(ExportFailure::IncompatibleType, "memory"@))
    } else if !memory_in_store(store, memory) {
        Err("memory belongs to another store"@)
    } else {
        Ok(memory)
    }
}

/// The function that `instance`, which runs in `store`, exports as `name`,
/// which has to be a function of that store. Otherwise the message of the
/// failure.
pub open spec fn callable(instance: wasmer::Instance, store: wasmer::Store, name: Seq<char>) -> Result<
    wasmer::Function,
    Seq<char>,
> {
    let kinds = export_kinds(instance);
    let function = exported_function(instance, name);
    if !kinds.contains_key(name) {
        Err(export_failure(ExportFailure::Missing, name))
    } else if kinds[name] != ExportKind::Function {
        Err(export_failure(ExportFailure::IncompatibleType, name))
    } else if !function_in_store(store, function) {
        Err("function belongs to another store"@)
    } else {
        Ok(function)
    }
}

/// The error for an export that is looked up under `name` and fails with
/// `failure`.
fn export_error(failure: ExportFailure, name: &str) -> (e: StringErr)
    ensures
        e@ == export_failure(failure, name@),
{
    match failure {
        ExportFailure::Missing => StringErr(String::from_str("Missing export ").concat(name)),
        ExportFailure::IncompatibleType => StringErr::new("Incompatible Export Type"),
    }
}

/// Finds the linear memory of `instance`, which runs in `store`.
pub fn find_linear_memory<'a>(instance: &'a wasmer::Instance, store: &wasmer::Store) -> (r: Result<
    &'a wasmer::Memory,
    StringErr,
>)
    ensures
        match r {
            Ok(memory) => linear_memory(*instance, *store) == Ok::<wasmer::Memory, Seq<char>>(
                *memory,
            ),
            Err(e) => linear_memory(*instance, *store) == Err::<wasmer::Memory, Seq<char>>(e@),
        },
{
    match find_memory(instance, "memory") {
        Err(failure) => Err(export_error(failure, "memory")),
        Ok(memory) => {
            if memory_is_from_store(memory, store) {
                Ok(memory)
            } else {
                Err(StringErr::new("memory belongs to another store"))
            }
        },
    }
}

/// Finds the function that `instance`, which runs in `store`, exports as
/// `name`.
pub fn find_callable<'a>(instance: &'a wasmer::Instance, store: &wasmer::Store, name: &str) -> (r:
    Result<&'a wasmer::Function, StringErr>)
    ensures
        match r {
            Ok(function) => callable(*instance, *store, name@) == Ok::<
                wasmer::Function,
                Seq<char>,
            >(*function),
            Err(e) => callable(*instance, *store, name@) == Err::<wasmer::Function, Seq<char>>(
                e@,
            ),
        },
{
    match find_function(instance, name) {
        Err(failure) => Err(export_error(failure, name)),
        Ok(function) => {
            if function_is_from_store(function, store) {
                Ok(function)
            } else {
                Err(StringErr::new("function belongs to another store"))
            }
        },
    }
}

} // verus!
