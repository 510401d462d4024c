//! The bridge-form instruction and terminator vocabulary: a closed set of
//! kind-tagged variants, each carrying typed operands.

use vstd::prelude::*;
use vstd::string::StringExecFns;

use crate::error::{EngineError, EngineResult, ErrorSpec, Unsupported, result_view};
use crate::shared::{Identifier, str_eq};
use crate::typing::{Type, TypeSpec};
use crate::value::{BlockLabel, RegisterSlot, Value, ValueSpec, values_view};

verus! {

/// The closed set of integer binary operators.
#[derive(Debug, Clone, Copy, PartialEq, Eq, Structural)]
pub enum BinaryOperator {
    Add,
    Sub,
    Mul,
    Div,
    Mod,
    Shl,
    Shr,
    And,
    Or,
    Xor,
}

impl View for BinaryOperator {
    type V = BinaryOperator;

    open spec fn view(&self) -> BinaryOperator {
        *self
    }
}

/// What parsing a binary opcode yields: signed and unsigned division and
/// remainder collapse, as do the two right shifts; the floating-point opcodes
/// are enumerated rejections; anything else breaks the input assumption.
pub open spec fn spec_parse_binop(op: Seq<char>) -> Result<BinaryOperator, ErrorSpec> {
    if op == "add"@ {
        Result::Ok(BinaryOperator::Add)
    } else if op == "sub"@ {
        Result::Ok(BinaryOperator::Sub)
    } else if op == "mul"@ {
        Result::Ok(BinaryOperator::Mul)
    } else if op == "udiv"@ || op == "sdiv"@ {
        Result::Ok(BinaryOperator::Div)
    } else if op == "urem"@ || op == "srem"@ {
        Result::Ok(BinaryOperator::Mod)
    } else if op == "shl"@ {
        Result::Ok(BinaryOperator::Shl)
    } else if op == "lshr"@ || op == "ashr"@ {
        Result::Ok(BinaryOperator::Shr)
    } else if op == "and"@ {
        Result::Ok(BinaryOperator::And)
    } else if op == "or"@ {
        Result::Ok(BinaryOperator::Or)
    } else if op == "xor"@ {
        Result::Ok(BinaryOperator::Xor)
    } else if op == "fadd"@ || op == "fsub"@ || op == "fmul"@ || op == "fdiv"@ || op == "frem"@ {
        Result::Err(ErrorSpec::NotSupportedYet(Unsupported::FloatingPoint))
    } else {
        Result::Err(ErrorSpec::InvalidAssumption("unexpected binary opcode: "@ + op))
    }
}

impl BinaryOperator {
    /// Parse a textual binary opcode.
    pub fn parse(opcode: &str) -> (r: EngineResult<Self>)
        ensures
            result_view(r) == spec_parse_binop(opcode@),
    {
        if str_eq(opcode, "add") {
            Result::Ok(BinaryOperator::Add)
        } else if str_eq(opcode, "sub") {
            Result::Ok(BinaryOperator::Sub)
        } else if str_eq(opcode, "mul") {
            Result::Ok(BinaryOperator::Mul)
        } else if str_eq(opcode, "udiv") || str_eq(opcode, "sdiv") {
            Result::Ok(BinaryOperator::Div)
        } else if str_eq(opcode, "urem") || str_eq(opcode, "srem") {
            Result::Ok(BinaryOperator::Mod)
        } else if str_eq(opcode, "shl") {
            Result::Ok(BinaryOperator::Shl)
        } else if str_eq(opcode, "lshr") || str_eq(opcode, "ashr") {
            Result::Ok(BinaryOperator::Shr)
        } else if str_eq(opcode, "and") {
            Result::Ok(BinaryOperator::And)
        } else if str_eq(opcode, "or") {
            Result::Ok(BinaryOperator::Or)
        } else if str_eq(opcode, "xor") {
            Result::Ok(BinaryOperator::Xor)
        } else if str_eq(opcode, "fadd") || str_eq(opcode, "fsub") || str_eq(opcode, "fmul")
            || str_eq(opcode, "fdiv") || str_eq(opcode, "frem") {
            Result::Err(EngineError::NotSupportedYet(Unsupported::FloatingPoint))
        } else {
            let mut msg = "unexpected binary opcode: ".to_owned();
            msg.append(opcode);
            Result::Err(EngineError::InvalidAssumption(msg))
        }
    }
}

/// The closed set of comparison predicates; signedness collapses.
#[derive(Debug, Clone, Copy, PartialEq, Eq, Structural)]
pub enum ComparePredicate {
    EQ,
    NE,
    GT,
    GE,
    LT,
    LE,
}

impl View for ComparePredicate {
    type V = ComparePredicate;

    open spec fn view(&self) -> ComparePredicate {
        *self
    }
}

/// What parsing a compare predicate yields: the integer predicates collapse
/// over signedness; every floating-point predicate is an enumerated
/// rejection; anything else breaks the input assumption.
pub open spec fn spec_parse_predicate(op: Seq<char>) -> Result<ComparePredicate, ErrorSpec> {
    if op == "i_eq"@ {
        Result::Ok(ComparePredicate::EQ)
    } else if op == "i_ne"@ {
        Result::Ok(ComparePredicate::NE)
    } else if op == "i_ugt"@ || op == "i_sgt"@ {
        Result::Ok(ComparePredicate::GT)
    } else if op == "i_uge"@ || op == "i_sge"@ {
        Result::Ok(ComparePredicate::GE)
    } else if op == "i_ult"@ || op == "i_slt"@ {
        Result::Ok(ComparePredicate::LT)
    } else if op == "i_ule"@ || op == "i_sle"@ {
        Result::Ok(ComparePredicate::LE)
    } else if op == "f_f"@ || op == "f_oeq"@ || op == "f_ogt"@ || op == "f_oge"@ || op == "f_olt"@
        || op == "f_ole"@ || op == "f_one"@ || op == "f_ord"@ || op == "f_uno"@ || op == "f_ueq"@
        || op == "f_ugt"@ || op == "f_uge"@ || op == "f_ult"@ || op == "f_ule"@ || op == "f_une"@
        || op == "f_t"@ {
        Result::Err(ErrorSpec::NotSupportedYet(Unsupported::FloatingPoint))
    } else {
        Result::Err(ErrorSpec::InvalidAssumption("unexpected compare predicate: "@ + op))
    }
}

impl ComparePredicate {
    /// Parse a textual compare predicate.
    pub fn parse(opcode: &str) -> (r: EngineResult<Self>)
        ensures
            result_view(r) == spec_parse_predicate(opcode@),
    {
        if str_eq(opcode, "i_eq") {
            Result::Ok(ComparePredicate::EQ)
        } else if str_eq(opcode, "i_ne") {
            Result::Ok(ComparePredicate::NE)
        } else if str_eq(opcode, "i_ugt") || str_eq(opcode, "i_sgt") {
            Result::Ok(ComparePredicate::GT)
        } else if str_eq(opcode, "i_uge") || str_eq(opcode, "i_sge") {
            Result::Ok(ComparePredicate::GE)
        } else if str_eq(opcode, "i_ult") || str_eq(opcode, "i_slt") {
            Result::Ok(ComparePredicate::LT)
        } else if str_eq(opcode, "i_ule") || str_eq(opcode, "i_sle") {
            Result::Ok(ComparePredicate::LE)
        } else if str_eq(opcode, "f_f") || str_eq(opcode, "f_oeq") || str_eq(opcode, "f_ogt")
            || str_eq(opcode, "f_oge") || str_eq(opcode, "f_olt") || str_eq(opcode, "f_ole")
            || str_eq(opcode, "f_one") || str_eq(opcode, "f_ord") || str_eq(opcode, "f_uno")
            || str_eq(opcode, "f_ueq") || str_eq(opcode, "f_ugt") || str_eq(opcode, "f_uge")
            || str_eq(opcode, "f_ult") || str_eq(opcode, "f_ule") || str_eq(opcode, "f_une")
            || str_eq(opcode, "f_t") {
            Result::Err(EngineError::NotSupportedYet(Unsupported::FloatingPoint))
        } else {
            let mut msg = "unexpected compare predicate: ".to_owned();
            msg.append(opcode);
            Result::Err(EngineError::InvalidAssumption(msg))
        }
    }
}

/// A bridge-form instruction.
#[derive(Debug, PartialEq, Eq)]
pub enum Instruction {
    // memory access
    Alloca { base_type: Type, size: Option<Value>, result: RegisterSlot },
    Load { pointee_type: Type, pointer: Value, result: RegisterSlot },
    Store { pointee_type: Type, pointer: Value, value: Value },
    // call
    CallDirect { function: Identifier, args: Vec<Value>, result: Option<(Type, RegisterSlot)> },
    CallIndirect { callee: Value, args: Vec<Value>, result: Option<(Type, RegisterSlot)> },
    // binary
    Binary { bits: usize, opcode: BinaryOperator, lhs: Value, rhs: Value, result: RegisterSlot },
    // compare; `bits` is some for bitvec operands and none for pointers
    Compare {
        bits: Option<usize>,
        predicate: ComparePredicate,
        lhs: Value,
        rhs: Value,
        result: RegisterSlot,
    },
    // casts
    CastBitvec { bits_from: usize, bits_into: usize, operand: Value, result: RegisterSlot },
    CastPtrToBitvec { bits_into: usize, operand: Value, result: RegisterSlot },
    CastBitvecToPtr { bits_from: usize, operand: Value, result: RegisterSlot },
    CastPtr { operand: Value, result: RegisterSlot },
    // freeze
    FreezePtr,
    FreezeBitvec { bits: usize },
    FreezeNop { value: Value },
    // address computation
    GEP {
        src_pointee_type: Type,
        dst_pointee_type: Type,
        pointer: Value,
        offset: Value,
        indices: Vec<Value>,
        result: RegisterSlot,
    },
    // selection
    ITE { cond: Value, then_value: Value, else_value: Value, result: RegisterSlot },
    Phi { ty: Type, options: Vec<(BlockLabel, Value)>, result: RegisterSlot },
    // aggregation
    GetValue {
        src_ty: Type,
        dst_ty: Type,
        aggregate: Value,
        indices: Vec<usize>,
        result: RegisterSlot,
    },
    SetValue {
        src_ty: Type,
        dst_ty: Type,
        aggregate: Value,
        value: Value,
        indices: Vec<usize>,
        result: RegisterSlot,
    },
}

/// Mathematical model of a bridge-form instruction.
#[verifier::ext_equal]
pub enum InstructionSpec {
    Alloca { base_type: TypeSpec, size: Option<ValueSpec>, result: nat },
    Load { pointee_type: TypeSpec, pointer: ValueSpec, result: nat },
    Store { pointee_type: TypeSpec, pointer: ValueSpec, value: ValueSpec },
    CallDirect { function: Seq<char>, args: Seq<ValueSpec>, result: Option<(TypeSpec, nat)> },
    CallIndirect { callee: ValueSpec, args: Seq<ValueSpec>, result: Option<(TypeSpec, nat)> },
    Binary {
        bits: nat,
        opcode: BinaryOperator,
        lhs: ValueSpec,
        rhs: ValueSpec,
        result: nat,
    },
    Compare {
        bits: Option<nat>,
        predicate: ComparePredicate,
        lhs: ValueSpec,
        rhs: ValueSpec,
        result: nat,
    },
    CastBitvec { bits_from: nat, bits_into: nat, operand: ValueSpec, result: nat },
    CastPtrToBitvec { bits_into: nat, operand: ValueSpec, result: nat },
    CastBitvecToPtr { bits_from: nat, operand: ValueSpec, result: nat },
    CastPtr { operand: ValueSpec, result: nat },
    FreezePtr,
    FreezeBitvec { bits: nat },
    FreezeNop { value: ValueSpec },
    GEP {
        src_pointee_type: TypeSpec,
        dst_pointee_type: TypeSpec,
        pointer: ValueSpec,
        offset: ValueSpec,
        indices: Seq<ValueSpec>,
        result: nat,
    },
    ITE { cond: ValueSpec, then_value: ValueSpec, else_value: ValueSpec, result: nat },
    Phi { ty: TypeSpec, options: Seq<(nat, ValueSpec)>, result: nat },
    GetValue {
        src_ty: TypeSpec,
        dst_ty: TypeSpec,
        aggregate: ValueSpec,
        indices: Seq<nat>,
        result: nat,
    },
    SetValue {
        src_ty: TypeSpec,
        dst_ty: TypeSpec,
        aggregate: ValueSpec,
        value: ValueSpec,
        indices: Seq<nat>,
        result: nat,
    },
}

pub open spec fn opt_value_view(v: Option<Value>) -> Option<ValueSpec> {
    match v {
        Option::None => Option::None,
        Option::Some(x) => Option::Some(x@),
    }
}

pub open spec fn opt_result_view(v: Option<(Type, RegisterSlot)>) -> Option<(TypeSpec, nat)> {
    match v {
        Option::None => Option::None,
        Option::Some((t, s)) => Option::Some((t@, s@)),
    }
}

pub open spec fn phi_options_view(s: Seq<(BlockLabel, Value)>) -> Seq<(nat, ValueSpec)> {
    Seq::new(s.len(), |i: int| (s[i].0@, s[i].1@))
}

pub open spec fn index_list_view(s: Seq<usize>) -> Seq<nat> {
    Seq::new(s.len(), |i: int| s[i] as nat)
}

impl View for Instruction {
    type V = InstructionSpec;

    open spec fn view(&self) -> InstructionSpec {
        match self {
            Instruction::Alloca { base_type, size, result } => InstructionSpec::Alloca {
                base_type: base_type@,
                size: opt_value_view(*size),
                result: result@,
            },
            Instruction::Load { pointee_type, pointer, result } => InstructionSpec::Load {
                pointee_type: pointee_type@,
                pointer: pointer@,
                result: result@,
            },
            Instruction::Store { pointee_type, pointer, value } => InstructionSpec::Store {
                pointee_type: pointee_type@,
                pointer: pointer@,
                value: value@,
            },
            Instruction::CallDirect { function, args, result } => InstructionSpec::CallDirect {
                function: function@,
                args: values_view(args@),
                result: opt_result_view(*result),
            },
            Instruction::CallIndirect { callee, args, result } => InstructionSpec::CallIndirect {
                callee: callee@,
                args: values_view(args@),
                result: opt_result_view(*result),
            },
            Instruction::Binary { bits, opcode, lhs, rhs, result } => InstructionSpec::Binary {
                bits: *bits as nat,
                opcode: *opcode,
                lhs: lhs@,
                rhs: rhs@,
                result: result@,
            },
            Instruction::Compare { bits, predicate, lhs, rhs, result } => InstructionSpec::Compare {
                bits: match bits {
                    Option::None => Option::None,
                    Option::Some(b) => Option::Some(*b as nat),
                },
                predicate: *predicate,
                lhs: lhs@,
                rhs: rhs@,
                result: result@,
            },
            Instruction::CastBitvec { bits_from, bits_into, operand, result } => {
                InstructionSpec::CastBitvec {
                    bits_from: *bits_from as nat,
                    bits_into: *bits_into as nat,
                    operand: operand@,
                    result: result@,
                }
            }
            Instruction::CastPtrToBitvec { bits_into, operand, result } => {
                InstructionSpec::CastPtrToBitvec {
                    bits_into: *bits_into as nat,
                    operand: operand@,
                    result: result@,
                }
            }
            Instruction::CastBitvecToPtr { bits_from, operand, result } => {
                InstructionSpec::CastBitvecToPtr {
                    bits_from: *bits_from as nat,
                    operand: operand@,
                    result: result@,
                }
            }
            Instruction::CastPtr { operand, result } => InstructionSpec::CastPtr {
                operand: operand@,
                result: result@,
            },
            Instruction::FreezePtr => InstructionSpec::FreezePtr,
            Instruction::FreezeBitvec { bits } => InstructionSpec::FreezeBitvec {
                bits: *bits as nat,
            },
            Instruction::FreezeNop { value } => InstructionSpec::FreezeNop { value: value@ },
            Instruction::GEP {
                src_pointee_type,
                dst_pointee_type,
                pointer,
                offset,
                indices,
                result,
            } => InstructionSpec::GEP {
                src_pointee_type: src_pointee_type@,
                dst_pointee_type: dst_pointee_type@,
                pointer: pointer@,
                offset: offset@,
                indices: values_view(indices@),
                result: result@,
            },
            Instruction::ITE { cond, then_value, else_value, result } => InstructionSpec::ITE {
                cond: cond@,
                then_value: then_value@,
                else_value: else_value@,
                result: result@,
            },
            Instruction::Phi { ty, options, result } => InstructionSpec::Phi {
                ty: ty@,
                options: phi_options_view(options@),
                result: result@,
            },
            Instruction::GetValue { src_ty, dst_ty, aggregate, indices, result } => {
                InstructionSpec::GetValue {
                    src_ty: src_ty@,
                    dst_ty: dst_ty@,
                    aggregate: aggregate@,
                    indices: index_list_view(indices@),
                    result: result@,
                }
            }
            Instruction::SetValue { src_ty, dst_ty, aggregate, value, indices, result } => {
                InstructionSpec::SetValue {
                    src_ty: src_ty@,
                    dst_ty: dst_ty@,
                    aggregate: aggregate@,
                    value: value@,
                    indices: index_list_view(indices@),
                    result: result@,
                }
            }
        }
    }
}

/// A bridge-form terminator.
#[derive(Debug, PartialEq, Eq)]
pub enum Terminator {
    /// function return
    Return { val: Option<Value> },
    /// unconditional branch
    Goto { target: BlockLabel },
    /// conditional branch
    Branch { cond: Value, then_case: BlockLabel, else_case: BlockLabel },
    /// switch; the case list carries unique labels, in first-insertion order,
    /// and a duplicate case label takes the later value (last write wins)
    Switch { cond: Value, cases: Vec<(u64, BlockLabel)>, default: Option<BlockLabel> },
    /// enters an unreachable state
    Unreachable,
}

/// Mathematical model of a bridge-form terminator.
#[verifier::ext_equal]
pub enum TerminatorSpec {
    Return { val: Option<ValueSpec> },
    Goto { target: nat },
    Branch { cond: ValueSpec, then_case: nat, else_case: nat },
    Switch { cond: ValueSpec, cases: Seq<(nat, nat)>, default: Option<nat> },
    Unreachable,
}

pub open spec fn switch_cases_view(s: Seq<(u64, BlockLabel)>) -> Seq<(nat, nat)> {
    Seq::new(s.len(), |i: int| (s[i].0 as nat, s[i].1@))
}

impl View for Terminator {
    type V = TerminatorSpec;

    open spec fn view(&self) -> TerminatorSpec {
        match self {
            Terminator::Return { val } => TerminatorSpec::Return { val: opt_value_view(*val) },
            Terminator::Goto { target } => TerminatorSpec::Goto { target: target@ },
            Terminator::Branch { cond, then_case, else_case } => TerminatorSpec::Branch {
                cond: cond@,
                then_case: then_case@,
                else_case: else_case@,
            },
            Terminator::Switch { cond, cases, default } => TerminatorSpec::Switch {
                cond: cond@,
                cases: switch_cases_view(cases@),
                default: match default {
                    Option::None => Option::None,
                    Option::Some(l) => Option::Some(l@),
                },
            },
            Terminator::Unreachable => TerminatorSpec::Unreachable,
        }
    }
}

} // verus!
