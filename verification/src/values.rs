//! Runtime values and their raw representation.
//!
//! Calls cross the host/Wasm boundary through a buffer of fixed-size slots;
//! every value travels as its raw bit pattern and is read back under its
//! declared type, exactly as the trampoline's loads and stores do it.
//! Floating point values are carried as their bit patterns.

use vstd::prelude::*;

use crate::types::ValType;

verus! {

/// A runtime value.
#[derive(Debug, Clone, Copy, PartialEq, Eq, Structural)]
pub enum Val {
    /// A 32 bit integer.
    I32(i32),
    /// A 64 bit integer.
    I64(i64),
    /// A 32 bit float, as its raw bit pattern.
    F32(u32),
    /// A 64 bit float, as its raw bit pattern.
    F64(u64),
    /// A 128 bit vector, as its raw bit pattern.
    V128(u128),
}

impl Val {
    /// The type of this value.
    pub fn ty(&self) -> (r: ValType)
        ensures
            r == self.spec_ty(),
    {
        match self {
            Val::I32(_) => ValType::I32,
            Val::I64(_) => ValType::I64,
            Val::F32(_) => ValType::F32,
            Val::F64(_) => ValType::F64,
            Val::V128(_) => ValType::V128,
        }
    }

    /// The type of this value.
    pub open spec fn spec_ty(&self) -> ValType {
        match self {
            Val::I32(_) => ValType::I32,
            Val::I64(_) => ValType::I64,
            Val::F32(_) => ValType::F32,
            Val::F64(_) => ValType::F64,
            Val::V128(_) => ValType::V128,
        }
    }

    /// Returns the 32 bit integer, if this value is one.
    pub fn i32(&self) -> (r: Option<i32>)
        ensures
            match r {
                Some(x) => *self == Val::I32(x),
                None => !(*self matches Val::I32(_)),
            },
    {
        match self {
            Val::I32(x) => Some(*x),
            _ => None,
        }
    }

    /// Returns the 64 bit integer, if this value is one.
    pub fn i64(&self) -> (r: Option<i64>)
        ensures
            match r {
                Some(x) => *self == Val::I64(x),
                None => !(*self matches Val::I64(_)),
            },
    {
        match self {
            Val::I64(x) => Some(*x),
            _ => None,
        }
    }
}

/// The raw bit pattern a value occupies in a call buffer slot.
pub open spec fn spec_val_bits(v: Val) -> u128 {
    match v {
        Val::I32(x) => (x as u32) as u128,
        Val::I64(x) => (x as u64) as u128,
        Val::F32(x) => x as u128,
        Val::F64(x) => x as u128,
        Val::V128(x) => x,
    }
}

/// The value read back from a buffer slot under type `t`.
pub open spec fn spec_val_of_bits(t: ValType, bits: u128) -> Val {
    match t {
        ValType::I32 => Val::I32((bits as u32) as i32),
        ValType::I64 => Val::I64((bits as u64) as i64),
        ValType::F32 => Val::F32(bits as u32),
        ValType::F64 => Val::F64(bits as u64),
        _ => Val::V128(bits),
    }
}

/// Writing a value and reading it back under its own type is the identity.
pub proof fn lemma_val_bits_roundtrip(v: Val)
    ensures
        spec_val_of_bits(v.spec_ty(), spec_val_bits(v)) == v,
{
    match v {
        Val::I32(x) => {
            assert(((x as u32) as u128) as u32 == x as u32) by (bit_vector);
            assert((x as u32) as i32 == x) by (bit_vector);
        }
        Val::I64(x) => {
            assert(((x as u64) as u128) as u64 == x as u64) by (bit_vector);
            assert((x as u64) as i64 == x) by (bit_vector);
        }
        Val::F32(x) => {
            assert((x as u128) as u32 == x) by (bit_vector);
        }
        Val::F64(x) => {
            assert((x as u128) as u64 == x) by (bit_vector);
        }
        Val::V128(_) => {}
    }
}

/// Stores a value's bit pattern into a buffer slot.
pub fn val_to_bits(v: &Val) -> (r: u128)
    ensures
        r == spec_val_bits(*v),
{
    match v {
        Val::I32(x) => (*x as u32) as u128,
        Val::I64(x) => (*x as u64) as u128,
        Val::F32(x) => *x as u128,
        Val::F64(x) => *x as u128,
        Val::V128(x) => *x,
    }
}

/// Reads a value back from a buffer slot under type `t`.
pub fn val_of_bits(t: &ValType, bits: u128) -> (r: Val)
    ensures
        r == spec_val_of_bits(*t, bits),
{
    match t {
        ValType::I32 => Val::I32((bits as u32) as i32),
        ValType::I64 => Val::I64((bits as u64) as i64),
        ValType::F32 => Val::F32(bits as u32),
        ValType::F64 => Val::F64(bits as u64),
        _ => Val::V128(bits),
    }
}

/// The types of a list of values.
pub open spec fn spec_val_types(vals: Seq<Val>) -> Seq<ValType> {
    vals.map_values(|v: Val| v.spec_ty())
}

} // verus!
