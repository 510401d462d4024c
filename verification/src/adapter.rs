//! The adapter form: a structurally parsed, semantically unchecked tree that
//! mirrors LLVM closely.  Produced by an external exporter and consumed here
//! as a fixed wire contract; every item is plain data.

use vstd::prelude::*;

verus! {

/// An adapter-form type, in the exporter's own closed vocabulary.
#[derive(Debug, PartialEq, Eq)]
pub enum Type {
    Void,
    Int { width: usize },
    Float { name: String },
    Pointer { pointee: Box<Type>, address_space: usize },
    Array { element: Box<Type>, length: usize },
    Struct { fields: Vec<Type> },
    Named { name: String },
    Function { params: Vec<Type>, ret: Box<Type> },
    Vector { element: Box<Type>, scalable: bool, length: usize },
    Label,
    Metadata,
    Token,
}

/// Mathematical model of an adapter-form type.
#[verifier::ext_equal]
pub enum TypeSpec {
    Void,
    Int { width: nat },
    Float { name: Seq<char> },
    Pointer { pointee: Box<TypeSpec>, address_space: nat },
    Array { element: Box<TypeSpec>, length: nat },
    Struct { fields: Seq<TypeSpec> },
    Named { name: Seq<char> },
    Function { params: Seq<TypeSpec>, ret: Box<TypeSpec> },
    Vector { element: Box<TypeSpec>, scalable: bool, length: nat },
    Label,
    Metadata,
    Token,
}

pub open spec fn type_view(t: Type) -> TypeSpec
    decreases t,
    via type_view_dec
{
    match t {
        Type::Void => TypeSpec::Void,
        Type::Int { width } => TypeSpec::Int { width: width as nat },
        Type::Float { name } => TypeSpec::Float { name: name@ },
        Type::Pointer { pointee, address_space } => TypeSpec::Pointer {
            pointee: Box::new(type_view(*pointee)),
            address_space: address_space as nat,
        },
        Type::Array { element, length } => TypeSpec::Array {
            element: Box::new(type_view(*element)),
            length: length as nat,
        },
        Type::Struct { fields } => TypeSpec::Struct { fields: types_view(fields@) },
        Type::Named { name } => TypeSpec::Named { name: name@ },
        Type::Function { params, ret } => TypeSpec::Function {
            params: types_view(params@),
            ret: Box::new(type_view(*ret)),
        },
        Type::Vector { element, scalable, length } => TypeSpec::Vector {
            element: Box::new(type_view(*element)),
            scalable,
            length: length as nat,
        },
        Type::Label => TypeSpec::Label,
        Type::Metadata => TypeSpec::Metadata,
        Type::Token => TypeSpec::Token,
    }
}

pub open spec fn types_view(s: Seq<Type>) -> Seq<TypeSpec>
    decreases s,
    via types_view_dec
{
    Seq::new(
        s.len(),
        |i: int|
            if 0 <= i < s.len() {
                type_view(s[i])
            } else {
                TypeSpec::Void
            },
    )
}

#[via_fn]
proof fn type_view_dec(t: Type) {
    match t {
        Type::Struct { fields } => {
            assert(decreases_to!(t => fields));
            assert(decreases_to!(fields => fields@));
        }
        Type::Function { params, ret } => {
            assert(decreases_to!(t => params));
            assert(decreases_to!(params => params@));
        }
        _ => {}
    }
}

#[via_fn]
proof fn types_view_dec(s: Seq<Type>) {
    assert forall|i: int| 0 <= i < s.len() implies decreases_to!(s => s[i]) by {
        assert(decreases_to!(s => s[i]));
    }
}

impl View for Type {
    type V = TypeSpec;

    open spec fn view(&self) -> TypeSpec {
        type_view(*self)
    }
}

/// An adapter-form constant: a type annotation plus a literal representation.
#[derive(Debug, PartialEq, Eq)]
pub struct Constant {
    /// type of the constant
    pub ty: Type,
    /// the actual representation of the constant
    pub repr: Const,
}

/// The closed set of constant representations the exporter emits.
#[derive(Debug, PartialEq, Eq)]
pub enum Const {
    /// an integer literal
    Int { value: i128 },
    /// the null pointer
    Null,
    /// an undefined value of the annotated type
    Undef,
    /// the address of a named function
    Function { name: String },
}

#[verifier::ext_equal]
pub enum ConstSpec {
    Int { value: int },
    Null,
    Undef,
    Function { name: Seq<char> },
}

#[verifier::ext_equal]
pub struct ConstantSpec {
    pub ty: TypeSpec,
    pub repr: ConstSpec,
}

impl View for Const {
    type V = ConstSpec;

    open spec fn view(&self) -> ConstSpec {
        match self {
            Const::Int { value } => ConstSpec::Int { value: *value as int },
            Const::Null => ConstSpec::Null,
            Const::Undef => ConstSpec::Undef,
            Const::Function { name } => ConstSpec::Function { name: name@ },
        }
    }
}

impl View for Constant {
    type V = ConstantSpec;

    open spec fn view(&self) -> ConstantSpec {
        ConstantSpec { ty: self.ty@, repr: self.repr@ }
    }
}

/// An adapter-form value: a constant, or a reference to a parameter or to the
/// result of another instruction.
#[derive(Debug, PartialEq, Eq)]
pub enum Value {
    /// constant
    Constant(Constant),
    /// reference to an argument
    Argument { ty: Type, index: usize },
    /// reference to an instruction
    Instruction { ty: Type, index: usize },
}

#[verifier::ext_equal]
pub enum ValueSpec {
    Constant(ConstantSpec),
    Argument { ty: TypeSpec, index: nat },
    Instruction { ty: TypeSpec, index: nat },
}

impl View for Value {
    type V = ValueSpec;

    open spec fn view(&self) -> ValueSpec {
        match self {
            Value::Constant(c) => ValueSpec::Constant(c@),
            Value::Argument { ty, index } => ValueSpec::Argument { ty: ty@, index: *index as nat },
            Value::Instruction { ty, index } => ValueSpec::Instruction {
                ty: ty@,
                index: *index as nat,
            },
        }
    }
}

/// The declared type of an adapter-form value.
pub open spec fn value_spec_type(v: ValueSpec) -> TypeSpec {
    match v {
        ValueSpec::Constant(c) => c.ty,
        ValueSpec::Argument { ty, .. } => ty,
        ValueSpec::Instruction { ty, .. } => ty,
    }
}

pub open spec fn values_view(s: Seq<Value>) -> Seq<ValueSpec> {
    Seq::new(s.len(), |i: int| s[i]@)
}

impl Value {
    /// The declared type carried by the value.
    pub fn get_type(&self) -> (r: &Type)
        ensures
            r@ == value_spec_type(self@),
    {
        match self {
            Value::Constant(c) => &c.ty,
            Value::Argument { ty, .. } => ty,
            Value::Instruction { ty, .. } => ty,
        }
    }
}

/// A piece of inline assembly, kept only to be rejected.
#[derive(Debug, PartialEq, Eq)]
pub struct InlineAsm {
    pub assembly: String,
    pub constraint: String,
}

#[verifier::ext_equal]
pub struct InlineAsmSpec {
    pub assembly: Seq<char>,
    pub constraint: Seq<char>,
}

impl View for InlineAsm {
    type V = InlineAsmSpec;

    open spec fn view(&self) -> InlineAsmSpec {
        InlineAsmSpec { assembly: self.assembly@, constraint: self.constraint@ }
    }
}

/// One incoming edge of a phi node.
#[derive(Debug, PartialEq, Eq)]
pub struct PhiOption {
    /// label for an incoming block
    pub block: usize,
    /// value
    pub value: Value,
}

#[verifier::ext_equal]
pub struct PhiOptionSpec {
    pub block: nat,
    pub value: ValueSpec,
}

impl View for PhiOption {
    type V = PhiOptionSpec;

    open spec fn view(&self) -> PhiOptionSpec {
        PhiOptionSpec { block: self.block as nat, value: self.value@ }
    }
}

pub open spec fn phi_options_view(s: Seq<PhiOption>) -> Seq<PhiOptionSpec> {
    Seq::new(s.len(), |i: int| s[i]@)
}

/// One case of a switch terminator.
#[derive(Debug, PartialEq, Eq)]
pub struct SwitchCase {
    /// label for the target block
    pub block: usize,
    /// value
    pub value: Constant,
}

#[verifier::ext_equal]
pub struct SwitchCaseSpec {
    pub block: nat,
    pub value: ConstantSpec,
}

impl View for SwitchCase {
    type V = SwitchCaseSpec;

    open spec fn view(&self) -> SwitchCaseSpec {
        SwitchCaseSpec { block: self.block as nat, value: self.value@ }
    }
}

pub open spec fn switch_cases_view(s: Seq<SwitchCase>) -> Seq<SwitchCaseSpec> {
    Seq::new(s.len(), |i: int| s[i]@)
}

/// The kind-tagged representation of an adapter-form instruction.
#[derive(Debug, PartialEq, Eq)]
pub enum Inst {
    // memory
    Alloca { allocated_type: Type, size: Option<Value>, address_space: usize },
    Load { pointee_type: Type, pointer: Value, ordering: String, address_space: usize },
    Store { pointee_type: Type, pointer: Value, value: Value, ordering: String, address_space: usize },
    VAArg,
    // intrinsics
    Intrinsic { callee: Value, target_type: Type, args: Vec<Value> },
    // call
    CallDirect { callee: Value, target_type: Type, args: Vec<Value> },
    CallIndirect { callee: Value, target_type: Type, args: Vec<Value> },
    Asm { assembly: InlineAsm, args: Vec<Value> },
    // unary
    Unary { opcode: String, operand: Value },
    // binary
    Binary { opcode: String, lhs: Value, rhs: Value },
    // comparison
    Compare { predicate: String, operand_type: Type, lhs: Value, rhs: Value },
    // cast
    Cast {
        opcode: String,
        src_ty: Type,
        dst_ty: Type,
        src_address_space: Option<usize>,
        dst_address_space: Option<usize>,
        operand: Value,
    },
    // freeze
    Freeze { operand: Value },
    // GEP
    GEP {
        src_pointee_ty: Type,
        dst_pointee_ty: Type,
        pointer: Value,
        indices: Vec<Value>,
        address_space: usize,
    },
    // choice
    ITE { cond: Value, then_value: Value, else_value: Value },
    Phi { options: Vec<PhiOption> },
    // aggregates
    GetValue { from_ty: Type, aggregate: Value, indices: Vec<usize> },
    SetValue { aggregate: Value, value: Value, indices: Vec<usize> },
    // vectors
    GetElement,
    SetElement,
    ShuffleVector,
    // concurrency
    Fence,
    AtomicCmpXchg,
    AtomicRMW,
    // terminators
    Return { value: Option<Value> },
    Branch { cond: Option<Value>, targets: Vec<usize> },
    Switch { cond: Value, cond_ty: Type, cases: Vec<SwitchCase>, default: Option<usize> },
    IndirectJump,
    Unreachable,
}

#[verifier::ext_equal]
pub enum InstSpec {
    Alloca { allocated_type: TypeSpec, size: Option<ValueSpec>, address_space: nat },
    Load { pointee_type: TypeSpec, pointer: ValueSpec, ordering: Seq<char>, address_space: nat },
    Store {
        pointee_type: TypeSpec,
        pointer: ValueSpec,
        value: ValueSpec,
        ordering: Seq<char>,
        address_space: nat,
    },
    VAArg,
    Intrinsic { callee: ValueSpec, target_type: TypeSpec, args: Seq<ValueSpec> },
    CallDirect { callee: ValueSpec, target_type: TypeSpec, args: Seq<ValueSpec> },
    CallIndirect { callee: ValueSpec, target_type: TypeSpec, args: Seq<ValueSpec> },
    Asm { assembly: InlineAsmSpec, args: Seq<ValueSpec> },
    Unary { opcode: Seq<char>, operand: ValueSpec },
    Binary { opcode: Seq<char>, lhs: ValueSpec, rhs: ValueSpec },
    Compare { predicate: Seq<char>, operand_type: TypeSpec, lhs: ValueSpec, rhs: ValueSpec },
    Cast {
        opcode: Seq<char>,
        src_ty: TypeSpec,
        dst_ty: TypeSpec,
        src_address_space: Option<nat>,
        dst_address_space: Option<nat>,
        operand: ValueSpec,
    },
    Freeze { operand: ValueSpec },
    GEP {
        src_pointee_ty: TypeSpec,
        dst_pointee_ty: TypeSpec,
        pointer: ValueSpec,
        indices: Seq<ValueSpec>,
        address_space: nat,
    },
    ITE { cond: ValueSpec, then_value: ValueSpec, else_value: ValueSpec },
    Phi { options: Seq<PhiOptionSpec> },
    GetValue { from_ty: TypeSpec, aggregate: ValueSpec, indices: Seq<nat> },
    SetValue { aggregate: ValueSpec, value: ValueSpec, indices: Seq<nat> },
    GetElement,
    SetElement,
    ShuffleVector,
    Fence,
    AtomicCmpXchg,
    AtomicRMW,
    Return { value: Option<ValueSpec> },
    Branch { cond: Option<ValueSpec>, targets: Seq<nat> },
    Switch {
        cond: ValueSpec,
        cond_ty: TypeSpec,
        cases: Seq<SwitchCaseSpec>,
        default: Option<nat>,
    },
    IndirectJump,
    Unreachable,
}

pub open spec fn option_value_view(v: Option<Value>) -> Option<ValueSpec> {
    match v {
        Option::None => Option::None,
        Option::Some(x) => Option::Some(x@),
    }
}

pub open spec fn usizes_view(s: Seq<usize>) -> Seq<nat> {
    Seq::new(s.len(), |i: int| s[i] as nat)
}

pub open spec fn option_usize_view(v: Option<usize>) -> Option<nat> {
    match v {
        Option::None => Option::None,
        Option::Some(x) => Option::Some(x as nat),
    }
}

impl View for Inst {
    type V = InstSpec;

    open spec fn view(&self) -> InstSpec {
        match self {
            Inst::Alloca { allocated_type, size, address_space } => InstSpec::Alloca {
                allocated_type: allocated_type@,
                size: option_value_view(*size),
                address_space: *address_space as nat,
            },
            Inst::Load { pointee_type, pointer, ordering, address_space } => InstSpec::Load {
                pointee_type: pointee_type@,
                pointer: pointer@,
                ordering: ordering@,
                address_space: *address_space as nat,
            },
            Inst::Store { pointee_type, pointer, value, ordering, address_space } => InstSpec::Store {
                pointee_type: pointee_type@,
                pointer: pointer@,
                value: value@,
                ordering: ordering@,
                address_space: *address_space as nat,
            },
            Inst::VAArg => InstSpec::VAArg,
            Inst::Intrinsic { callee, target_type, args } => InstSpec::Intrinsic {
                callee: callee@,
                target_type: target_type@,
                args: values_view(args@),
            },
            Inst::CallDirect { callee, target_type, args } => InstSpec::CallDirect {
                callee: callee@,
                target_type: target_type@,
                args: values_view(args@),
            },
            Inst::CallIndirect { callee, target_type, args } => InstSpec::CallIndirect {
                callee: callee@,
                target_type: target_type@,
                args: values_view(args@),
            },
            Inst::Asm { assembly, args } => InstSpec::Asm { assembly: assembly@, args: values_view(args@) },
            Inst::Unary { opcode, operand } => InstSpec::Unary {
                opcode: opcode@,
                operand: operand@,
            },
            Inst::Binary { opcode, lhs, rhs } => InstSpec::Binary {
                opcode: opcode@,
                lhs: lhs@,
                rhs: rhs@,
            },
            Inst::Compare { predicate, operand_type, lhs, rhs } => InstSpec::Compare {
                predicate: predicate@,
                operand_type: operand_type@,
                lhs: lhs@,
                rhs: rhs@,
            },
            Inst::Cast {
                opcode,
                src_ty,
                dst_ty,
                src_address_space,
                dst_address_space,
                operand,
            } => InstSpec::Cast {
                opcode: opcode@,
                src_ty: src_ty@,
                dst_ty: dst_ty@,
                src_address_space: option_usize_view(*src_address_space),
                dst_address_space: option_usize_view(*dst_address_space),
                operand: operand@,
            },
            Inst::Freeze { operand } => InstSpec::Freeze { operand: operand@ },
            Inst::GEP { src_pointee_ty, dst_pointee_ty, pointer, indices, address_space } => InstSpec::GEP {
                src_pointee_ty: src_pointee_ty@,
                dst_pointee_ty: dst_pointee_ty@,
                pointer: pointer@,
                indices: values_view(indices@),
                address_space: *address_space as nat,
            },
            Inst::ITE { cond, then_value, else_value } => InstSpec::ITE {
                cond: cond@,
                then_value: then_value@,
                else_value: else_value@,
            },
            Inst::Phi { options } => InstSpec::Phi { options: phi_options_view(options@) },
            Inst::GetValue { from_ty, aggregate, indices } => InstSpec::GetValue {
                from_ty: from_ty@,
                aggregate: aggregate@,
                indices: usizes_view(indices@),
            },
            Inst::SetValue { aggregate, value, indices } => InstSpec::SetValue {
                aggregate: aggregate@,
                value: value@,
                indices: usizes_view(indices@),
            },
            Inst::GetElement => InstSpec::GetElement,
            Inst::SetElement => InstSpec::SetElement,
            Inst::ShuffleVector => InstSpec::ShuffleVector,
            Inst::Fence => InstSpec::Fence,
            Inst::AtomicCmpXchg => InstSpec::AtomicCmpXchg,
            Inst::AtomicRMW => InstSpec::AtomicRMW,
            Inst::Return { value } => InstSpec::Return { value: option_value_view(*value) },
            Inst::Branch { cond, targets } => InstSpec::Branch {
                cond: option_value_view(*cond),
                targets: usizes_view(targets@),
            },
            Inst::Switch { cond, cond_ty, cases, default } => InstSpec::Switch {
                cond: cond@,
                cond_ty: cond_ty@,
                cases: switch_cases_view(cases@),
                default: option_usize_view(*default),
            },
            Inst::IndirectJump => InstSpec::IndirectJump,
            Inst::Unreachable => InstSpec::Unreachable,
        }
    }
}

/// An adapter-form instruction: its declared type, its position within the
/// function, and the kind-specific representation.
#[derive(Debug, PartialEq, Eq)]
pub struct Instruction {
    /// name of the instruction, if any
    pub name: Option<String>,
    /// type of the instruction
    pub ty: Type,
    /// a unique id for the instruction
    pub index: usize,
    /// the actual representation of an instruction
    pub repr: Inst,
}

#[verifier::ext_equal]
pub struct InstructionSpec {
    pub name: Option<Seq<char>>,
    pub ty: TypeSpec,
    pub index: nat,
    pub repr: InstSpec,
}

pub open spec fn option_string_view(v: Option<String>) -> Option<Seq<char>> {
    match v {
        Option::None => Option::None,
        Option::Some(x) => Option::Some(x@),
    }
}

impl View for Instruction {
    type V = InstructionSpec;

    open spec fn view(&self) -> InstructionSpec {
        InstructionSpec {
            name: option_string_view(self.name),
            ty: self.ty@,
            index: self.index as nat,
            repr: self.repr@,
        }
    }
}

pub open spec fn instructions_view(s: Seq<Instruction>) -> Seq<InstructionSpec> {
    Seq::new(s.len(), |i: int| s[i]@)
}

/// One declared parameter of an adapter-form function.
#[derive(Debug, PartialEq, Eq)]
pub struct Parameter {
    pub name: Option<String>,
    pub ty: Type,
}

#[verifier::ext_equal]
pub struct ParameterSpec {
    pub name: Option<Seq<char>>,
    pub ty: TypeSpec,
}

impl View for Parameter {
    type V = ParameterSpec;

    open spec fn view(&self) -> ParameterSpec {
        ParameterSpec { name: option_string_view(self.name), ty: self.ty@ }
    }
}

pub open spec fn parameters_view(s: Seq<Parameter>) -> Seq<ParameterSpec> {
    Seq::new(s.len(), |i: int| s[i]@)
}

/// One basic block of an adapter-form function; the terminator stands in the
/// last position of the instruction stream.
#[derive(Debug, PartialEq, Eq)]
pub struct Block {
    /// label of the block, unique within the function
    pub label: usize,
    /// the instruction stream; the terminator is the final entry
    pub body: Vec<Instruction>,
}

#[verifier::ext_equal]
pub struct BlockSpec {
    pub label: nat,
    pub body: Seq<InstructionSpec>,
}

impl View for Block {
    type V = BlockSpec;

    open spec fn view(&self) -> BlockSpec {
        BlockSpec { label: self.label as nat, body: instructions_view(self.body@) }
    }
}

pub open spec fn blocks_view(s: Seq<Block>) -> Seq<BlockSpec> {
    Seq::new(s.len(), |i: int| s[i]@)
}

/// An adapter-form function.
#[derive(Debug, PartialEq, Eq)]
pub struct Function {
    pub name: Option<String>,
    pub ty: Type,
    pub is_defined: bool,
    pub is_exact: bool,
    pub is_intrinsic: bool,
    pub params: Vec<Parameter>,
    pub blocks: Vec<Block>,
}

#[verifier::ext_equal]
pub struct FunctionSpec {
    pub name: Option<Seq<char>>,
    pub ty: TypeSpec,
    pub is_defined: bool,
    pub is_exact: bool,
    pub is_intrinsic: bool,
    pub params: Seq<ParameterSpec>,
    pub blocks: Seq<BlockSpec>,
}

impl View for Function {
    type V = FunctionSpec;

    open spec fn view(&self) -> FunctionSpec {
        FunctionSpec {
            name: option_string_view(self.name),
            ty: self.ty@,
            is_defined: self.is_defined,
            is_exact: self.is_exact,
            is_intrinsic: self.is_intrinsic,
            params: parameters_view(self.params@),
            blocks: blocks_view(self.blocks@),
        }
    }
}

pub open spec fn functions_view(s: Seq<Function>) -> Seq<FunctionSpec> {
    Seq::new(s.len(), |i: int| s[i]@)
}

/// One named struct declaration of a module.
#[derive(Debug, PartialEq, Eq)]
pub struct StructDecl {
    pub name: String,
    pub fields: Vec<Type>,
}

#[verifier::ext_equal]
pub struct StructDeclSpec {
    pub name: Seq<char>,
    pub fields: Seq<TypeSpec>,
}

impl View for StructDecl {
    type V = StructDeclSpec;

    open spec fn view(&self) -> StructDeclSpec {
        StructDeclSpec { name: self.name@, fields: types_view(self.fields@) }
    }
}

pub open spec fn struct_decls_view(s: Seq<StructDecl>) -> Seq<StructDeclSpec> {
    Seq::new(s.len(), |i: int| s[i]@)
}

/// An adapter-form module: its name and its module-level assembly string.
#[derive(Debug, PartialEq, Eq)]
pub struct Module {
    /// name of the module
    pub name: String,
    /// module-level inline assembly
    pub assembly: String,
}

#[verifier::ext_equal]
pub struct ModuleSpec {
    pub name: Seq<char>,
    pub assembly: Seq<char>,
}

impl View for Module {
    type V = ModuleSpec;

    open spec fn view(&self) -> ModuleSpec {
        ModuleSpec { name: self.name@, assembly: self.assembly@ }
    }
}

} // verus!
