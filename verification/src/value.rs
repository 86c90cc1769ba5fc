//! Values as they cross the boundary.
//!
//! The engine computes on typed values; the host side knows only 64-bit
//! integers. A value travels as one such integer, its wire form: an integer as
//! itself, sign-extended where it is narrower, and a floating-point number as
//! its IEEE 754 bit pattern, zero-extended where it is narrower. Reference and
//! vector values have no wire form.

use vstd::prelude::*;

verus! {

/// The kind of a WebAssembly value.
#[derive(Clone, Copy, Debug, PartialEq, Eq, Structural)]
pub enum ValueType {
    I32,
    I64,
    F32,
    F64,
    V128,
    ExternRef,
    FuncRef,
    ExceptionRef,
}

/// A WebAssembly value. Floating-point values are held by their bit patterns,
/// references by their kind alone.
#[derive(Clone, Copy, Debug, PartialEq, Eq, Structural)]
pub enum WasmValue {
    I32(i32),
    I64(i64),
    F32(u32),
    F64(u64),
    V128(u128),
    ExternRef,
    FuncRef,
    ExceptionRef,
}

/// The signed integer with the same 64 bits as `bits`, in two's complement.
pub open spec fn signed64(bits: u64) -> i64 {
    if bits <= i64::MAX {
        bits as i64
    } else {
        (bits - 0x1_0000_0000_0000_0000) as i64
    }
}

/// The unsigned integer with the same 64 bits as `x`, in two's complement.
pub open spec fn unsigned64(x: i64) -> u64 {
    if x >= 0 {
        x as u64
    } else {
        (x + 0x1_0000_0000_0000_0000) as u64
    }
}

/// The signed integer with the same 32 bits as `bits`, in two's complement.
pub open spec fn signed32(bits: u32) -> i32 {
    if bits <= i32::MAX {
        bits as i32
    } else {
        (bits - 0x1_0000_0000) as i32
    }
}

/// The low 32 bits of `x`, in two's complement.
pub open spec fn low32(x: i64) -> u32 {
    (x % 0x1_0000_0000) as u32
}

impl ValueType {
    /// Whether values of this kind have a wire form.
    pub open spec fn is_wire_kind(self) -> bool {
        self is I32 || self is I64 || self is F32 || self is F64
    }
}

impl WasmValue {
    /// The kind of this value.
    pub open spec fn kind(self) -> ValueType {
        match self {
            WasmValue::I32(_) => ValueType::I32,
            WasmValue::I64(_) => ValueType::I64,
            WasmValue::F32(_) => ValueType::F32,
            WasmValue::F64(_) => ValueType::F64,
            WasmValue::V128(_) => ValueType::V128,
            WasmValue::ExternRef => ValueType::ExternRef,
            WasmValue::FuncRef => ValueType::FuncRef,
            WasmValue::ExceptionRef => ValueType::ExceptionRef,
        }
    }

    /// The wire form of this value, if it has one.
    pub open spec fn wire(self) -> Option<i64> {
        match self {
            WasmValue::I32(x) => Some(x as i64),
            WasmValue::I64(x) => Some(x),
            WasmValue::F32(bits) => Some(bits as i64),
            WasmValue::F64(bits) => Some(signed64(bits)),
            _ => None,
        }
    }

    /// The value of kind `ty` that the wire form `x` stands for, if values of
    /// that kind have a wire form. The 32-bit kinds take the low 32 bits.
    pub open spec fn of_wire(ty: ValueType, x: i64) -> Option<WasmValue> {
        match ty {
            ValueType::I32 => Some(WasmValue::I32(signed32(low32(x)))),
            ValueType::I64 => Some(WasmValue::I64(x)),
            ValueType::F32 => Some(WasmValue::F32(low32(x))),
            ValueType::F64 => Some(WasmValue::F64(unsigned64(x))),
            _ => None,
        }
    }

    /// Computes the kind of this value.
    pub fn value_type(&self) -> (ty: ValueType)
        ensures
            ty == self.kind(),
    {
        match self {
            WasmValue::I32(_) => ValueType::I32,
            WasmValue::I64(_) => ValueType::I64,
            WasmValue::F32(_) => ValueType::F32,
            WasmValue::F64(_) => ValueType::F64,
            WasmValue::V128(_) => ValueType::V128,
            WasmValue::ExternRef => ValueType::ExternRef,
            WasmValue::FuncRef => ValueType::FuncRef,
            WasmValue::ExceptionRef => ValueType::ExceptionRef,
        }
    }

    /// Computes the wire form of this value.
    pub fn to_wire(&self) -> (w: Option<i64>)
        ensures
            w == self.wire(),
    {
        match self {
            WasmValue::I32(x) => Some(*x as i64),
            WasmValue::I64(x) => Some(*x),
            WasmValue::F32(bits) => Some(*bits as i64),
            WasmValue::F64(bits) => Some(to_signed64(*bits)),
            _ => None,
        }
    }

    /// Computes the value of kind `ty` that the wire form `x` stands for.
    pub fn from_wire(ty: ValueType, x: i64) -> (v: Option<WasmValue>)
        ensures
            v == WasmValue::of_wire(ty, x),
    {
        match ty {
            ValueType::I32 => Some(WasmValue::I32(to_signed32(to_low32(x)))),
            ValueType::I64 => Some(WasmValue::I64(x)),
            ValueType::F32 => Some(WasmValue::F32(to_low32(x))),
            ValueType::F64 => Some(WasmValue::F64(to_unsigned64(x))),
            _ => None,
        }
    }
}

fn to_signed64(bits: u64) -> (x: i64)
    ensures
        x == signed64(bits),
{
    if bits <= 0x7fff_ffff_ffff_ffff {
        bits as i64
    } else {
        let high: u64 = bits - 0x8000_0000_0000_0000;
        (high as i64) + i64::MIN
    }
}

fn to_unsigned64(x: i64) -> (bits: u64)
    ensures
        bits == unsigned64(x),
{
    if x >= 0 {
        x as u64
    } else {
        let high: i64 = x - i64::MIN;
        (high as u64) + 0x8000_0000_0000_0000
    }
}

fn to_signed32(bits: u32) -> (x: i32)
    ensures
        x == signed32(bits),
{
    if bits <= 0x7fff_ffff {
        bits as i32
    } else {
        let high: u32 = bits - 0x8000_0000;
        (high as i32) + i32::MIN
    }
}

fn to_low32(x: i64) -> (bits: u32)
    ensures
        bits == low32(x),
{
    let all: u64 = to_unsigned64(x);
    let low: u64 = all % 0x1_0000_0000;
    low as u32
}

/// The wire forms of `values`, in order, if each of them has one.
pub open spec fn wire_of_values(values: Seq<WasmValue>) -> Option<Seq<i64>> {
    if forall|i: int| 0 <= i < values.len() ==> (#[trigger] values[i]).wire() is Some {
        Some(Seq::new(values.len(), |i: int| values[i].wire()->0))
    } else {
        None
    }
}

/// The values of the kinds `types` that the wire forms `wire` stand for, in
/// order, if there is one wire form for each kind and each kind has a wire
/// form.
pub open spec fn values_of_wire(types: Seq<ValueType>, wire: Seq<i64>) -> Option<Seq<WasmValue>> {
    if types.len() == wire.len() && forall|i: int|
        0 <= i < types.len() ==> (#[trigger] types[i]).is_wire_kind() {
        Some(Seq::new(types.len(), |i: int| WasmValue::of_wire(types[i], wire[i])->0))
    } else {
        None
    }
}

/// Turns values into their wire forms. Fails if one of them has none.
pub fn encode_values(values: &Vec<WasmValue>) -> (r: Option<Vec<i64>>)
    ensures
        match r {
            Some(w) => wire_of_values(values@) == Some(w@),
            None => wire_of_values(values@) is None,
        },
{
    let mut wire: Vec<i64> = Vec::new();
    let mut i: usize = 0;
    while i < values.len()
        invariant
            i <= values.len(),
            wire.len() == i,
            forall|j: int| 0 <= j < i ==> (#[trigger] values[j]).wire() == Some(wire[j]),
        decreases values.len() - i,
    {
        match values[i].to_wire() {
            Some(w) => wire.push(w),
            None => {
                return None;
            },
        }
        i += 1;
    }
    assert(wire@ =~= Seq::new(values@.len(), |i: int| values@[i].wire()->0));
    Some(wire)
}

/// Turns wire forms into values of the kinds `types`. Fails if the two
/// lengths differ or if values of one of the kinds have no wire form.
pub fn decode_values(types: &Vec<ValueType>, wire: &Vec<i64>) -> (r: Option<Vec<WasmValue>>)
    ensures
        match r {
            Some(v) => values_of_wire(types@, wire@) == Some(v@),
            None => values_of_wire(types@, wire@) is None,
        },
{
    if types.len() != wire.len() {
        return None;
    }
    let mut values: Vec<WasmValue> = Vec::new();
    let mut i: usize = 0;
    while i < types.len()
        invariant
            i <= types.len(),
            types.len() == wire.len(),
            values.len() == i,
            forall|j: int| 0 <= j < i ==> (#[trigger] types[j]).is_wire_kind(),
            forall|j: int| 0 <= j < i ==> WasmValue::of_wire(types[j], wire[j]) == Some(#[trigger] values[j]),
        decreases types.len() - i,
    {
        match WasmValue::from_wire(types[i], wire[i]) {
            Some(v) => values.push(v),
            None => {
                assert(!types[i as int].is_wire_kind());
                return None;
            },
        }
        i += 1;
    }
    assert(values@ =~= Seq::new(types@.len(), |i: int| WasmValue::of_wire(types@[i], wire@[i])->0));
    Some(values)
}

/// A value that has a wire form is the value of its kind that the wire form
/// stands for: nothing is lost on the way to the host and back.
pub proof fn lemma_wire_round_trip(value: WasmValue)
    requires
        value.wire() is Some,
    ensures
        WasmValue::of_wire(value.kind(), value.wire()->0) == Some(value),
{
}

/// The wire form of a 64-bit value is the wire form it was made from: for
/// these kinds nothing is lost on the way to the engine and back either.
pub proof fn lemma_wide_round_trip(ty: ValueType, x: i64)
    requires
        ty is I64 || ty is F64,
    ensures
        WasmValue::of_wire(ty, x) is Some,
        WasmValue::of_wire(ty, x)->0.wire() == Some(x),
{
}

/// Values made from wire forms are of the kinds asked for, and each of them
/// has a wire form again.
pub proof fn lemma_values_of_wire(types: Seq<ValueType>, wire: Seq<i64>)
    requires
        values_of_wire(types, wire) is Some,
    ensures
        values_of_wire(types, wire)->0.len() == types.len(),
        forall|i: int|
            0 <= i < types.len() ==> (#[trigger] values_of_wire(types, wire)->0[i]).kind()
                == types[i],
        wire_of_values(values_of_wire(types, wire)->0) is Some,
{
    let values = values_of_wire(types, wire)->0;
    assert forall|i: int| 0 <= i < values.len() implies (#[trigger] values[i]).wire() is Some
        && values[i].kind() == types[i] by {
        assert(types[i].is_wire_kind());
    }
}

/// Values that all have wire forms are the values of their own kinds that
/// those wire forms stand for.
pub proof fn lemma_values_round_trip(values: Seq<WasmValue>)
    requires
        wire_of_values(values) is Some,
    ensures
        values_of_wire(Seq::new(values.len(), |i: int| values[i].kind()), wire_of_values(values)->0)
            == Some(values),
{
    let types = Seq::new(values.len(), |i: int| values[i].kind());
    let wire = wire_of_values(values)->0;
    assert forall|i: int| 0 <= i < types.len() implies (#[trigger] types[i]).is_wire_kind() by {
        assert(values[i].wire() is Some);
    }
    let back = values_of_wire(types, wire)->0;
    assert forall|i: int| 0 <= i < values.len() implies back[i] == values[i] by {
        assert(values[i].wire() is Some);
        lemma_wire_round_trip(values[i]);
    }
    assert(back =~= values);
}

} // verus!
