//! Bridge-form constants, and their conversion from adapter form against an
//! expected bridge type.

use vstd::prelude::*;

use crate::adapter;
use crate::error::{EngineError, EngineResult, ErrorSpec, result_view};
use crate::shared::{Identifier, SymbolRegistry};
use crate::typing::{Type, TypeSpec, TypeRegistry, StructDefSpec, spec_convert_type, type_eq,
    type_dup};

verus! {

/// A bridge-form constant.
#[derive(Debug, PartialEq, Eq)]
pub enum Constant {
    /// an integer literal of a known width
    Bitvec { bits: usize, value: i128 },
    /// an undefined bit-vector of a known width
    UndefBitvec { bits: usize },
    /// the null pointer
    NullPointer,
    /// an undefined pointer
    UndefPointer,
    /// the address of a named function
    Function { name: Identifier },
}

/// Mathematical model of a bridge-form constant.
#[verifier::ext_equal]
pub enum ConstantSpec {
    Bitvec { bits: nat, value: int },
    UndefBitvec { bits: nat },
    NullPointer,
    UndefPointer,
    Function { name: Seq<char> },
}

impl View for Constant {
    type V = ConstantSpec;

    open spec fn view(&self) -> ConstantSpec {
        match self {
            Constant::Bitvec { bits, value } => ConstantSpec::Bitvec {
                bits: *bits as nat,
                value: *value as int,
            },
            Constant::UndefBitvec { bits } => ConstantSpec::UndefBitvec { bits: *bits as nat },
            Constant::NullPointer => ConstantSpec::NullPointer,
            Constant::UndefPointer => ConstantSpec::UndefPointer,
            Constant::Function { name } => ConstantSpec::Function { name: name@ },
        }
    }
}

/// Structural equality of two bridge constants, decided executably.
pub fn constant_eq(a: &Constant, b: &Constant) -> (r: bool)
    ensures
        r == (a@ == b@),
{
    match (a, b) {
        (Constant::Bitvec { bits: w1, value: v1 }, Constant::Bitvec { bits: w2, value: v2 }) => {
            w1 == w2 && v1 == v2
        }
        (Constant::UndefBitvec { bits: w1 }, Constant::UndefBitvec { bits: w2 }) => w1 == w2,
        (Constant::NullPointer, Constant::NullPointer) => true,
        (Constant::UndefPointer, Constant::UndefPointer) => true,
        (Constant::Function { name: n1 }, Constant::Function { name: n2 }) => n1.matches(n2),
        _ => false,
    }
}

/// A deep copy of a bridge constant, equal to the original in its view.
pub fn constant_dup(c: &Constant) -> (r: Constant)
    ensures
        r@ == c@,
{
    match c {
        Constant::Bitvec { bits, value } => Constant::Bitvec { bits: *bits, value: *value },
        Constant::UndefBitvec { bits } => Constant::UndefBitvec { bits: *bits },
        Constant::NullPointer => Constant::NullPointer,
        Constant::UndefPointer => Constant::UndefPointer,
        Constant::Function { name } => Constant::Function { name: name.duplicate() },
    }
}

/// What converting one adapter-form constant against an expected bridge type
/// yields.  The constant's own declared type must convert to exactly the
/// expected type; the representation must fit that type's shape; a function
/// address must name a function known to the symbol registry.
pub open spec fn spec_convert_constant(
    reg: Seq<StructDefSpec>,
    syms: Seq<Seq<char>>,
    c: adapter::ConstantSpec,
    expected: TypeSpec,
) -> Result<ConstantSpec, ErrorSpec> {
    match spec_convert_type(reg, c.ty) {
        Result::Err(e) => Result::Err(e),
        Result::Ok(t) => {
            if t != expected {
                Result::Err(ErrorSpec::InvariantViolation("constant type mismatch"@))
            } else {
                match c.repr {
                    adapter::ConstSpec::Int { value } => match expected {
                        TypeSpec::Bitvec { bits } => Result::Ok(
                            ConstantSpec::Bitvec { bits, value },
                        ),
                        _ => Result::Err(
                            ErrorSpec::InvalidAssumption(
                                "integer constant with a non-bitvec type"@,
                            ),
                        ),
                    },
                    adapter::ConstSpec::Null => match expected {
                        TypeSpec::Pointer => Result::Ok(ConstantSpec::NullPointer),
                        _ => Result::Err(
                            ErrorSpec::InvalidAssumption(
                                "null constant with a non-pointer type"@,
                            ),
                        ),
                    },
                    adapter::ConstSpec::Undef => match expected {
                        TypeSpec::Bitvec { bits } => Result::Ok(
                            ConstantSpec::UndefBitvec { bits },
                        ),
                        TypeSpec::Pointer => Result::Ok(ConstantSpec::UndefPointer),
                        _ => Result::Err(
                            ErrorSpec::InvalidAssumption(
                                "undef constant of an unsupported type"@,
                            ),
                        ),
                    },
                    adapter::ConstSpec::Function { name } => match expected {
                        TypeSpec::Pointer => {
                            if syms.contains(name) {
                                Result::Ok(ConstantSpec::Function { name })
                            } else {
                                Result::Err(
                                    ErrorSpec::InvalidAssumption(
                                        "unknown function name in constant"@,
                                    ),
                                )
                            }
                        }
                        _ => Result::Err(
                            ErrorSpec::InvalidAssumption(
                                "function constant with a non-pointer type"@,
                            ),
                        ),
                    },
                }
            }
        }
    }
}

impl Constant {
    /// Convert an adapter-form constant against the expected bridge type.
    pub fn convert(
        constant: &adapter::Constant,
        expected_type: &Type,
        typing: &TypeRegistry,
        symbols: &SymbolRegistry,
    ) -> (r: EngineResult<Constant>)
        ensures
            result_view(r) == spec_convert_constant(
                typing@,
                symbols@,
                constant@,
                expected_type@,
            ),
    {
        let actual = match typing.convert(&constant.ty) {
            Result::Err(e) => {
                return Result::Err(e);
            }
            Result::Ok(t) => t,
        };
        if !type_eq(&actual, expected_type) {
            return Result::Err(
                EngineError::InvariantViolation("constant type mismatch".to_owned()),
            );
        }
        match &constant.repr {
            adapter::Const::Int { value } => match expected_type {
                Type::Bitvec { bits } => Result::Ok(Constant::Bitvec { bits: *bits, value: *value }),
                _ => Result::Err(
                    EngineError::InvalidAssumption(
                        "integer constant with a non-bitvec type".to_owned(),
                    ),
                ),
            },
            adapter::Const::Null => match expected_type {
                Type::Pointer => Result::Ok(Constant::NullPointer),
                _ => Result::Err(
                    EngineError::InvalidAssumption(
                        "null constant with a non-pointer type".to_owned(),
                    ),
                ),
            },
            adapter::Const::Undef => match expected_type {
                Type::Bitvec { bits } => Result::Ok(Constant::UndefBitvec { bits: *bits }),
                Type::Pointer => Result::Ok(Constant::UndefPointer),
                _ => Result::Err(
                    EngineError::InvalidAssumption(
                        "undef constant of an unsupported type".to_owned(),
                    ),
                ),
            },
            adapter::Const::Function { name } => match expected_type {
                Type::Pointer => {
                    let ident = Identifier::new(name.clone());
                    if symbols.has_function(&ident) {
                        Result::Ok(Constant::Function { name: ident })
                    } else {
                        Result::Err(
                            EngineError::InvalidAssumption(
                                "unknown function name in constant".to_owned(),
                            ),
                        )
                    }
                }
                _ => Result::Err(
                    EngineError::InvalidAssumption(
                        "function constant with a non-pointer type".to_owned(),
                    ),
                ),
            },
        }
    }
}

} // verus!
