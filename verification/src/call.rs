//! Calling a function that an instance exports.
//!
//! The host names the function and gives the arguments as wire forms. Before
//! the engine runs, the arguments are counted against the function's
//! parameters and turned into values of the parameters' kinds; after it has
//! run, the results are turned back into wire forms.

use vstd::prelude::*;
use vstd::string::StringExecFns;
use crate::engine::{exported_function, function_param_types, function_params};
use crate::error::{invalid_handle, result_view, StringErr};
use crate::export::{callable, find_callable};
use crate::table::InstanceTable;
use crate::value::{decode_values, encode_values, values_of_wire, wire_of_values, WasmValue};

verus! {

/// What a call of the function `method` of the instance under `id` hands to
/// the engine, given the wire forms `args` of the arguments: one value for
/// each parameter, of the parameter's kind. Otherwise the message of the
/// failure, on which the engine is not called.
pub open spec fn call_plan(table: InstanceTable, id: i64, method: Seq<char>, args: Seq<i64>) -> Result<
    Seq<WasmValue>,
    Seq<char>,
> {
    if !table.is_live(id) {
        Err(invalid_handle())
    } else {
        let context = table.context(id);
        match callable(context.instance, context.store, method) {
            Err(message) => Err(message),
            Ok(function) => {
                let params = function_params(context.store, function);
                if params.len() != args.len() {
                    Err("invalid params length"@)
                } else {
                    match values_of_wire(params, args) {
                        Some(values) => Ok(values),
                        None => Err("unsupported param type"@),
                    }
                }
            },
        }
    }
}

/// What the host gets back from a call that the engine answered with
/// `answer`: the wire forms of the results, or the message of the failure.
/// The engine's own failure is passed on by its text.
pub open spec fn call_outcome(answer: Result<Seq<WasmValue>, Seq<char>>) -> Result<
    Seq<i64>,
    Seq<char>,
> {
    match answer {
        Err(text) => Err("Got unexpected runtime error: "@ + text),
        Ok(values) => match wire_of_values(values) {
            Some(wire) => Ok(wire),
            None => Err("unsupported return type"@),
        },
    }
}

/// Turns what the engine answered to a call into what the host gets back.
pub fn finish_call(answer: Result<Vec<WasmValue>, String>) -> (r: Result<Vec<i64>, StringErr>)
    ensures
        result_view(r) == call_outcome(result_view(answer)),
{
    match answer {
        Err(text) => Err(
            StringErr(String::from_str("Got unexpected runtime error: ").concat(text.as_str())),
        ),
        Ok(values) => match encode_values(&values) {
            Some(wire) => Ok(wire),
            None => Err(StringErr::new("unsupported return type")),
        },
    }
}

/// Calls the function that the instance under `id` exports as `method`, with
/// the arguments whose wire forms are `args`, and gives back the wire forms
/// of its results.
///
/// The call itself is made by `invoke`, which gets the function, the store to
/// run it in and the arguments, and answers with the results or with the text
/// of the engine's failure. It is invoked once, and only if `id` names a live
/// instance that exports the function, `args` has one entry for each
/// parameter, and each parameter is of a kind that has a wire form. Whatever
/// it leaves in the store stays there.
pub fn execute<F>(
    table: &mut InstanceTable,
    id: i64,
    method: &str,
    args: &Vec<i64>,
    invoke: F,
) -> (r: Result<Vec<i64>, StringErr>) where
    F: FnOnce(&wasmer::Function, &mut wasmer::Store, Vec<WasmValue>) -> Result<
        Vec<WasmValue>,
        String,
    >,

    requires
        call_plan(*old(table), id, method@, args@) matches Ok(values) ==> forall|
            store: &mut wasmer::Store,
            handed: Vec<WasmValue>,
        |
            *store == old(table).context(id).store && handed@ == values ==> invoke.requires(
                (&exported_function(old(table).context(id).instance, method@), store, handed),
            ),
    ensures
        call_plan(*old(table), id, method@, args@) matches Err(message) ==> result_view(r) == Err::<
            Seq<i64>,
            Seq<char>,
        >(message) && final(table)@ == old(table)@,
        call_plan(*old(table), id, method@, args@) matches Ok(values) ==> {
            let before = old(table).context(id);
            let after = final(table).context(id);
            &&& final(table)@ == old(table)@.update(id - 1, Some(after))
            &&& after.instance == before.instance
            &&& exists|
                store: &mut wasmer::Store,
                handed: Vec<WasmValue>,
                answer: Result<Vec<WasmValue>, String>,
            |
                *store == before.store && *final(store) == after.store && handed@ == values
                    && invoke.ensures(
                    (&exported_function(before.instance, method@), store, handed),
                    answer,
                ) && result_view(r) == call_outcome(result_view(answer))
        },
{
    let context = match table.get_mut(id) {
        Some(context) => context,
        None => {
            return Err(StringErr::new("invalid instance handle"));
        },
    };
    let function = match find_callable(&context.instance, &context.store, method) {
        Ok(function) => function,
        Err(e) => {
            return Err(e);
        },
    };
    let params = function_param_types(function, &context.store);
    if params.len() != args.len() {
        return Err(StringErr::new("invalid params length"));
    }
    let values = match decode_values(&params, args) {
        Some(values) => values,
        None => {
            return Err(StringErr::new("unsupported param type"));
        },
    };
    let answer = invoke(function, &mut context.store, values);
    finish_call(answer)
}

} // verus!
