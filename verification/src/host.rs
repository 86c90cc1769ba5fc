//! Functions that the host offers to a module.
//!
//! A module imports such a function under a signature. When the module calls
//! it, the arguments go to the host as wire forms, together with the number of
//! the instance and the number of the function, and the wire forms that the
//! host answers with become the results.

use vstd::prelude::*;
use crate::error::{result_view, StringErr};
use crate::value::{
    decode_values, encode_values, values_of_wire, wire_of_values, ValueType, WasmValue,
};

verus! {

/// A function of the host: its signature, and the numbers by which the host
/// knows the instance and the function.
pub struct HostFunction {
    pub params: Vec<ValueType>,
    pub results: Vec<ValueType>,
    pub ins: i32,
    pub host_id: i32,
}

/// What a module gets back from a call of a host function with results of
/// the kinds `results`, given what the host answered: the values that the
/// wire forms stand for, or the message of the failure. The host's own
/// failure is passed on as it is.
pub open spec fn host_outcome(results: Seq<ValueType>, answer: Result<Seq<i64>, Seq<char>>) -> Result<
    Seq<WasmValue>,
    Seq<char>,
> {
    match answer {
        Err(message) => Err(message),
        Ok(wire) => match values_of_wire(results, wire) {
            Some(values) => Ok(values),
            None => Err("unexpected return type"@),
        },
    }
}

/// Describes the host function number `host_id` of the instance number `ins`,
/// with the parameters `sig.0` and the results `sig.1`.
pub fn create_host(sig: (Vec<ValueType>, Vec<ValueType>), ins: i32, host_id: i32) -> (host:
    HostFunction)
    ensures
        host.params@ == sig.0@,
        host.results@ == sig.1@,
        host.ins == ins,
        host.host_id == host_id,
{
    HostFunction { params: sig.0, results: sig.1, ins, host_id }
}

impl HostFunction {
    /// Turns what the host answered to a call into what the module gets back.
    pub fn finish(&self, answer: Result<Vec<i64>, StringErr>) -> (r: Result<
        Vec<WasmValue>,
        StringErr,
    >)
        ensures
            result_view(r) == host_outcome(self.results@, result_view(answer)),
    {
        match answer {
            Err(e) => Err(e),
            Ok(wire) => match decode_values(&self.results, &wire) {
                Some(values) => Ok(values),
                None => Err(StringErr::new("unexpected return type")),
            },
        }
    }

    /// Serves one call of this function by a module, with the arguments
    /// `args`.
    ///
    /// The host is reached through `dispatch`, which gets the number of the
    /// instance, the number of the function and the wire forms of the
    /// arguments, and answers with the wire forms of the results or with a
    /// failure. It is invoked once, and only if every argument has a wire
    /// form.
    pub fn call<D>(&self, args: &Vec<WasmValue>, dispatch: D) -> (r: Result<
        Vec<WasmValue>,
        StringErr,
    >) where D: FnOnce(i32, i32, Vec<i64>) -> Result<Vec<i64>, StringErr>
        requires
            wire_of_values(args@) matches Some(wire) ==> forall|sent: Vec<i64>|
                sent@ == wire ==> dispatch.requires((self.ins, self.host_id, sent)),
        ensures
            wire_of_values(args@) is None ==> result_view(r) == Err::<Seq<WasmValue>, Seq<char>>(
                "unexpected param type"@,
            ),
            wire_of_values(args@) matches Some(wire) ==> exists|
                sent: Vec<i64>,
                answer: Result<Vec<i64>, StringErr>,
            |
                sent@ == wire && dispatch.ensures((self.ins, self.host_id, sent), answer)
                    && result_view(r) == host_outcome(self.results@, result_view(answer)),
    {
        let wire = match encode_values(args) {
            Some(wire) => wire,
            None => {
                return Err(StringErr::new("unexpected param type"));
            },
        };
        let answer = dispatch(self.ins, self.host_id, wire);
        self.finish(answer)
    }
}

} // verus!
