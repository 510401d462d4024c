//! Bridge-form values: constants, argument references, and register
//! references.  A register is the result of an instruction, addressed by that
//! instruction's position within its function.

use vstd::prelude::*;

use crate::constant::{Constant, ConstantSpec, constant_eq, constant_dup};
use crate::typing::{Type, TypeSpec, type_eq, type_dup};

verus! {

/// An opaque wrapper over a basic block's positional index in its function.
#[derive(Debug, Clone, Copy, PartialEq, Eq, PartialOrd, Ord, Hash, Structural)]
pub struct BlockLabel(pub usize);

impl View for BlockLabel {
    type V = nat;

    open spec fn view(&self) -> nat {
        self.0 as nat
    }
}

impl BlockLabel {
    /// Wrap a block's positional index.
    pub fn new(index: usize) -> (r: Self)
        ensures
            r@ == index as nat,
    {
        BlockLabel(index)
    }
}

/// An opaque wrapper over the producing instruction's positional index.
#[derive(Debug, Clone, Copy, PartialEq, Eq, PartialOrd, Ord, Hash, Structural)]
pub struct RegisterSlot(pub usize);

impl View for RegisterSlot {
    type V = nat;

    open spec fn view(&self) -> nat {
        self.0 as nat
    }
}

impl RegisterSlot {
    /// Wrap an instruction's positional index.
    pub fn new(index: usize) -> (r: Self)
        ensures
            r@ == index as nat,
    {
        RegisterSlot(index)
    }
}

/// A bridge-form value, always carrying its bridge type.
#[derive(Debug, PartialEq, Eq)]
pub enum Value {
    /// a constant
    Constant(Constant),
    /// a reference to a declared parameter
    Argument { index: usize, ty: Type },
    /// a reference to the result of another instruction
    Register { index: RegisterSlot, ty: Type },
}

/// Mathematical model of a bridge-form value.
#[verifier::ext_equal]
pub enum ValueSpec {
    Constant(ConstantSpec),
    Argument { index: nat, ty: TypeSpec },
    Register { index: nat, ty: TypeSpec },
}

impl View for Value {
    type V = ValueSpec;

    open spec fn view(&self) -> ValueSpec {
        match self {
            Value::Constant(c) => ValueSpec::Constant(c@),
            Value::Argument { index, ty } => ValueSpec::Argument {
                index: *index as nat,
                ty: ty@,
            },
            Value::Register { index, ty } => ValueSpec::Register { index: index@, ty: ty@ },
        }
    }
}

pub open spec fn values_view(s: Seq<Value>) -> Seq<ValueSpec> {
    Seq::new(s.len(), |i: int| s[i]@)
}

/// Structural equality of two bridge values, decided executably.
pub fn value_eq(a: &Value, b: &Value) -> (r: bool)
    ensures
        r == (a@ == b@),
{
    match (a, b) {
        (Value::Constant(c1), Value::Constant(c2)) => constant_eq(c1, c2),
        (Value::Argument { index: i1, ty: t1 }, Value::Argument { index: i2, ty: t2 }) => {
            i1 == i2 && type_eq(t1, t2)
        }
        (Value::Register { index: i1, ty: t1 }, Value::Register { index: i2, ty: t2 }) => {
            i1.0 == i2.0 && type_eq(t1, t2)
        }
        _ => false,
    }
}

/// A deep copy of a bridge value, equal to the original in its view.
pub fn value_dup(v: &Value) -> (r: Value)
    ensures
        r@ == v@,
{
    match v {
        Value::Constant(c) => Value::Constant(constant_dup(c)),
        Value::Argument { index, ty } => Value::Argument { index: *index, ty: type_dup(ty) },
        Value::Register { index, ty } => Value::Register {
            index: RegisterSlot(index.0),
            ty: type_dup(ty),
        },
    }
}

} // verus!
