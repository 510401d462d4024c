//! The per-instruction translator: each adapter-form instruction becomes a
//! bridge-form instruction, or an enumerated rejection.  Block-final
//! instructions are translated separately, into terminators.

use vstd::prelude::*;
use vstd::string::StringExecFns;

use crate::adapter;
use crate::constant::{Constant, ConstantSpec, spec_convert_constant};
use crate::context::{Context, ContextSpec, ctx_with_insts, spec_parse_value,
    spec_parse_value_bv32_or_bv64, table_get, table_set};
use crate::error::{EngineError, EngineResult, ErrorSpec, Unsupported, result_view};
use crate::instruction::{BinaryOperator, ComparePredicate, Instruction, InstructionSpec,
    Terminator, TerminatorSpec, spec_parse_binop, spec_parse_predicate, opt_value_view,
    opt_result_view, phi_options_view, index_list_view, switch_cases_view};
use crate::shared::str_eq;
use crate::typing::{Type, TypeSpec, spec_convert_type, type_eq, type_dup, types_view};
use crate::value::{BlockLabel, RegisterSlot, Value, ValueSpec, values_view, value_eq};

verus! {

impl<'a> Context<'a> {
    /// Whether the label belongs to the function's discovered block set.
    pub fn has_block(&self, label: usize) -> (r: bool)
        ensures
            r == self@.blocks.contains(label as nat),
    {
        let n = self.blocks.len();
        for i in 0..n
            invariant
                n == self.blocks@.len(),
                forall|j: int| 0 <= j < i ==> self@.blocks[j] != label as nat,
        {
            if self.blocks[i] == label {
                assert(self@.blocks[i as int] == label as nat);
                return true;
            }
        }
        false
    }
}

/// Converting a list of call arguments, each against the matching declared
/// parameter type, threading the register table and collecting into `acc`.
pub open spec fn spec_parse_values(
    ctx: ContextSpec,
    params: Seq<TypeSpec>,
    args: Seq<adapter::ValueSpec>,
    acc: Seq<ValueSpec>,
) -> (Result<Seq<ValueSpec>, ErrorSpec>, Seq<(nat, Option<TypeSpec>)>)
    decreases args.len(),
{
    if args.len() == 0 {
        (Result::Ok(acc), ctx.insts)
    } else {
        let step = spec_parse_value(ctx, args[0], params[0]);
        match step.0 {
            Result::Err(e) => (Result::Err(e), step.1),
            Result::Ok(v) => spec_parse_values(
                ctx_with_insts(ctx, step.1),
                params.subrange(1, params.len() as int),
                args.subrange(1, args.len() as int),
                acc.push(v),
            ),
        }
    }
}

impl<'a> Context<'a> {
    /// Convert the argument list of a call, one value per declared parameter.
    fn parse_values(&mut self, params: &Vec<Type>, args: &Vec<adapter::Value>) -> (r:
        EngineResult<Vec<Value>>)
        requires
            params@.len() == args@.len(),
        ensures
            ({
                let full = spec_parse_values(
                    old(self)@,
                    types_view(params@),
                    adapter::values_view(args@),
                    Seq::empty(),
                );
                &&& match r {
                    Result::Ok(v) => full.0 == Result::<Seq<ValueSpec>, ErrorSpec>::Ok(
                        values_view(v@),
                    ),
                    Result::Err(e) => full.0 == Result::<Seq<ValueSpec>, ErrorSpec>::Err(e@),
                }
                &&& final(self)@ == ctx_with_insts(old(self)@, full.1)
            }),
    {
        let ghost ctx0 = self@;
        let ghost ps = types_view(params@);
        let ghost vs = adapter::values_view(args@);
        let ghost full = spec_parse_values(ctx0, ps, vs, Seq::empty());
        let n = args.len();
        let mut out: Vec<Value> = Vec::new();
        proof {
            assert(ps.subrange(0, ps.len() as int) =~= ps);
            assert(vs.subrange(0, vs.len() as int) =~= vs);
            assert(values_view(out@) =~= Seq::<ValueSpec>::empty());
        }
        for i in 0..n
            invariant
                n == args@.len(),
                n == params@.len(),
                ctx0 == old(self)@,
                ps == types_view(params@),
                vs == adapter::values_view(args@),
                full == spec_parse_values(ctx0, ps, vs, Seq::empty()),
                full == spec_parse_values(
                    self@,
                    ps.subrange(i as int, ps.len() as int),
                    vs.subrange(i as int, vs.len() as int),
                    values_view(out@),
                ),
                self@ == ctx_with_insts(ctx0, self@.insts),
                out@.len() == i,
        {
            let ghost ps_suf = ps.subrange(i as int, ps.len() as int);
            let ghost vs_suf = vs.subrange(i as int, vs.len() as int);
            proof {
                assert(ps_suf[0] == ps[i as int]);
                assert(vs_suf[0] == vs[i as int]);
                assert(ps[i as int] == params@[i as int]@);
                assert(vs[i as int] == args@[i as int]@);
                assert(ps_suf.subrange(1, ps_suf.len() as int) =~= ps.subrange(
                    i + 1,
                    ps.len() as int,
                ));
                assert(vs_suf.subrange(1, vs_suf.len() as int) =~= vs.subrange(
                    i + 1,
                    vs.len() as int,
                ));
            }
            let ghost pre = self@;
            let ghost step = spec_parse_value(pre, vs[i as int], ps[i as int]);
            match self.parse_value(&args[i], &params[i]) {
                Result::Err(e) => {
                    proof {
                        assert(full.0 == Result::<Seq<ValueSpec>, ErrorSpec>::Err(e@));
                        assert(self@ == ctx_with_insts(ctx0, step.1));
                    }
                    return Result::Err(e);
                }
                Result::Ok(v) => {
                    let ghost prev = values_view(out@);
                    out.push(v);
                    proof {
                        assert(values_view(out@) =~= prev.push(v@));
                        assert(self@ == ctx_with_insts(pre, step.1));
                        assert(self@ == ctx_with_insts(ctx0, self@.insts));
                        assert(full == spec_parse_values(
                            self@,
                            ps.subrange(i + 1, ps.len() as int),
                            vs.subrange(i + 1, vs.len() as int),
                            values_view(out@),
                        ));
                    }
                }
            }
        }
        proof {
            assert(ps.subrange(n as int, ps.len() as int).len() == 0);
            assert(vs.subrange(n as int, vs.len() as int).len() == 0);
        }
        Result::Ok(out)
    }
}

/// Walking an index chain over struct fields and array elements, yielding the
/// resolved destination type.  A struct index must be in range of the field
/// list; an array index must be in range of the declared length.
pub open spec fn spec_walk_indices(cur: TypeSpec, indices: Seq<nat>) -> Result<
    TypeSpec,
    ErrorSpec,
>
    decreases indices.len(),
{
    if indices.len() == 0 {
        Result::Ok(cur)
    } else {
        match cur {
            TypeSpec::Struct { name, fields } => {
                if indices[0] >= fields.len() {
                    Result::Err(ErrorSpec::InvalidAssumption("field number out of range"@))
                } else {
                    spec_walk_indices(
                        fields[indices[0] as int],
                        indices.subrange(1, indices.len() as int),
                    )
                }
            }
            TypeSpec::Array { element, length } => {
                if indices[0] >= length {
                    Result::Err(ErrorSpec::InvalidAssumption("array index out of range"@))
                } else {
                    spec_walk_indices(*element, indices.subrange(1, indices.len() as int))
                }
            }
            _ => Result::Err(
                ErrorSpec::InvalidAssumption("Aggregate getter only applies to array and struct"@),
            ),
        }
    }
}

/// Walk an index chain over a bridge type, returning the resolved type.
fn walk_index_chain(src: &Type, indices: &Vec<usize>) -> (r: EngineResult<Type>)
    ensures
        result_view(r) == spec_walk_indices(src@, index_list_view(indices@)),
{
    let ghost full = index_list_view(indices@);
    let mut cur: &Type = src;
    let n = indices.len();
    proof {
        assert(full.subrange(0, full.len() as int) =~= full);
    }
    for i in 0..n
        invariant
            n == indices@.len(),
            full == index_list_view(indices@),
            spec_walk_indices(src@, full) == spec_walk_indices(
                cur@,
                full.subrange(i as int, full.len() as int),
            ),
    {
        let ghost suffix = full.subrange(i as int, full.len() as int);
        proof {
            assert(suffix[0] == full[i as int]);
            assert(full[i as int] == indices@[i as int] as nat);
            assert(suffix.subrange(1, suffix.len() as int) =~= full.subrange(
                i + 1,
                full.len() as int,
            ));
        }
        let idx = indices[i];
        match cur {
            Type::Struct { name: _, fields } => {
                proof {
                    assert(cur@ is Struct);
                    assert(cur@->Struct_fields == types_view(fields@));
                }
                if idx >= fields.len() {
                    return Result::Err(
                        EngineError::InvalidAssumption("field number out of range".to_owned()),
                    );
                }
                proof {
                    assert(cur@->Struct_fields[idx as int] == fields@[idx as int]@);
                }
                cur = &fields[idx];
            }
            Type::Array { element, length } => {
                if idx >= *length {
                    return Result::Err(
                        EngineError::InvalidAssumption("array index out of range".to_owned()),
                    );
                }
                cur = element;
            }
            _ => {
                return Result::Err(
                    EngineError::InvalidAssumption(
                        "Aggregate getter only applies to array and struct".to_owned(),
                    ),
                );
            }
        }
    }
    proof {
        assert(full.subrange(n as int, full.len() as int).len() == 0);
    }
    Result::Ok(type_dup(cur))
}

/// What translating an `alloca` yields: the instruction type must be a
/// pointer, the address space must be zero, and the optional size is parsed
/// as a 64-bit count.
pub open spec fn spec_parse_alloca(
    ctx: ContextSpec,
    allocated_type: adapter::TypeSpec,
    size: Option<adapter::ValueSpec>,
    address_space: nat,
    ty: adapter::TypeSpec,
    index: nat,
) -> (Result<InstructionSpec, ErrorSpec>, Seq<(nat, Option<TypeSpec>)>) {
    match spec_convert_type(ctx.typing, ty) {
        Result::Err(e) => (Result::Err(e), ctx.insts),
        Result::Ok(inst_ty) => {
            if !(inst_ty is Pointer) {
                (
                    Result::Err(
                        ErrorSpec::InvalidAssumption("AllocaInst should return a pointer type"@),
                    ),
                    ctx.insts,
                )
            } else if address_space != 0 {
                (
                    Result::Err(ErrorSpec::NotSupportedYet(Unsupported::PointerAddressSpace)),
                    ctx.insts,
                )
            } else {
                match spec_convert_type(ctx.typing, allocated_type) {
                    Result::Err(e) => (Result::Err(e), ctx.insts),
                    Result::Ok(base_type) => match size {
                        Option::None => (
                            Result::Ok(
                                InstructionSpec::Alloca {
                                    base_type,
                                    size: Option::None,
                                    result: index,
                                },
                            ),
                            ctx.insts,
                        ),
                        Option::Some(v) => {
                            let step = spec_parse_value(
                                ctx,
                                v,
                                TypeSpec::Bitvec { bits: 64 as nat },
                            );
                            match step.0 {
                                Result::Err(e) => (Result::Err(e), step.1),
                                Result::Ok(sv) => (
                                    Result::Ok(
                                        InstructionSpec::Alloca {
                                            base_type,
                                            size: Option::Some(sv),
                                            result: index,
                                        },
                                    ),
                                    step.1,
                                ),
                            }
                        }
                    },
                }
            }
        }
    }
}

/// What translating a `load` yields: a non-atomic ordering and address space
/// zero are demanded first, then the result type must equal the pointee type.
pub open spec fn spec_parse_load(
    ctx: ContextSpec,
    pointee_type: adapter::TypeSpec,
    pointer: adapter::ValueSpec,
    ordering: Seq<char>,
    address_space: nat,
    ty: adapter::TypeSpec,
    index: nat,
) -> (Result<InstructionSpec, ErrorSpec>, Seq<(nat, Option<TypeSpec>)>) {
    if ordering != "not_atomic"@ {
        (Result::Err(ErrorSpec::NotSupportedYet(Unsupported::AtomicInstruction)), ctx.insts)
    } else if address_space != 0 {
        (Result::Err(ErrorSpec::NotSupportedYet(Unsupported::PointerAddressSpace)), ctx.insts)
    } else {
        match spec_convert_type(ctx.typing, ty) {
            Result::Err(e) => (Result::Err(e), ctx.insts),
            Result::Ok(inst_ty) => match spec_convert_type(ctx.typing, pointee_type) {
                Result::Err(e) => (Result::Err(e), ctx.insts),
                Result::Ok(pointee) => {
                    if inst_ty != pointee {
                        (
                            Result::Err(
                                ErrorSpec::InvalidAssumption(
                                    "LoadInst mismatch between result type and pointee type"@,
                                ),
                            ),
                            ctx.insts,
                        )
                    } else {
                        let step = spec_parse_value(ctx, pointer, TypeSpec::Pointer);
                        match step.0 {
                            Result::Err(e) => (Result::Err(e), step.1),
                            Result::Ok(p) => (
                                Result::Ok(
                                    InstructionSpec::Load {
                                        pointee_type: pointee,
                                        pointer: p,
                                        result: index,
                                    },
                                ),
                                step.1,
                            ),
                        }
                    }
                }
            },
        }
    }
}

/// What translating a `store` yields: non-atomic, address space zero, a void
/// instruction type, and the stored value parsed against the pointee type.
pub open spec fn spec_parse_store(
    ctx: ContextSpec,
    pointee_type: adapter::TypeSpec,
    pointer: adapter::ValueSpec,
    value: adapter::ValueSpec,
    ordering: Seq<char>,
    address_space: nat,
    ty: adapter::TypeSpec,
) -> (Result<InstructionSpec, ErrorSpec>, Seq<(nat, Option<TypeSpec>)>) {
    if ordering != "not_atomic"@ {
        (Result::Err(ErrorSpec::NotSupportedYet(Unsupported::AtomicInstruction)), ctx.insts)
    } else if address_space != 0 {
        (Result::Err(ErrorSpec::NotSupportedYet(Unsupported::PointerAddressSpace)), ctx.insts)
    } else if !(ty is Void) {
        (Result::Err(ErrorSpec::InvalidAssumption("StoreInst should have void type"@)), ctx.insts)
    } else {
        match spec_convert_type(ctx.typing, pointee_type) {
            Result::Err(e) => (Result::Err(e), ctx.insts),
            Result::Ok(pointee) => {
                let pstep = spec_parse_value(ctx, pointer, TypeSpec::Pointer);
                match pstep.0 {
                    Result::Err(e) => (Result::Err(e), pstep.1),
                    Result::Ok(p) => {
                        let vstep = spec_parse_value(
                            ctx_with_insts(ctx, pstep.1),
                            value,
                            pointee,
                        );
                        match vstep.0 {
                            Result::Err(e) => (Result::Err(e), vstep.1),
                            Result::Ok(v) => (
                                Result::Ok(
                                    InstructionSpec::Store {
                                        pointee_type: pointee,
                                        pointer: p,
                                        value: v,
                                    },
                                ),
                                vstep.1,
                            ),
                        }
                    }
                }
            }
        }
    }
}

/// What translating a call yields.  The callee's declared type must be a
/// function type whose parameter count matches the argument count; the
/// return-type presence must match the instruction type; a direct or
/// intrinsic call must target a named function and an indirect call must not.
pub open spec fn spec_parse_call(
    ctx: ContextSpec,
    callee: adapter::ValueSpec,
    target_type: adapter::TypeSpec,
    args: Seq<adapter::ValueSpec>,
    ty: adapter::TypeSpec,
    index: nat,
    direct: bool,
) -> (Result<InstructionSpec, ErrorSpec>, Seq<(nat, Option<TypeSpec>)>) {
    match spec_convert_type(ctx.typing, target_type) {
        Result::Err(e) => (Result::Err(e), ctx.insts),
        Result::Ok(func_ty) => match func_ty {
            TypeSpec::Function { params, ret } => {
                if params.len() != args.len() {
                    (
                        Result::Err(
                            ErrorSpec::InvalidAssumption("CallInst number of arguments mismatch"@),
                        ),
                        ctx.insts,
                    )
                } else {
                    let astep = spec_parse_values(ctx, params, args, Seq::empty());
                    match astep.0 {
                        Result::Err(e) => (Result::Err(e), astep.1),
                        Result::Ok(args_new) => {
                            let ret_check: Result<Option<TypeSpec>, ErrorSpec> = match ret {
                                Option::None => {
                                    if !(ty is Void) {
                                        Result::Err(
                                            ErrorSpec::InvalidAssumption(
                                                "CallInst return type mismatch"@,
                                            ),
                                        )
                                    } else {
                                        Result::Ok(Option::None)
                                    }
                                }
                                Option::Some(t) => match spec_convert_type(ctx.typing, ty) {
                                    Result::Err(e) => Result::Err(e),
                                    Result::Ok(inst_ty) => {
                                        if *t != inst_ty {
                                            Result::Err(
                                                ErrorSpec::InvalidAssumption(
                                                    "CallInst return type mismatch"@,
                                                ),
                                            )
                                        } else {
                                            Result::Ok(Option::Some(inst_ty))
                                        }
                                    }
                                },
                            };
                            match ret_check {
                                Result::Err(e) => (Result::Err(e), astep.1),
                                Result::Ok(ret_ty) => {
                                    let cstep = spec_parse_value(
                                        ctx_with_insts(ctx, astep.1),
                                        callee,
                                        TypeSpec::Pointer,
                                    );
                                    match cstep.0 {
                                        Result::Err(e) => (Result::Err(e), cstep.1),
                                        Result::Ok(callee_new) => {
                                            let result_slot = match ret_ty {
                                                Option::None => Option::None,
                                                Option::Some(t) => Option::Some((t, index)),
                                            };
                                            if direct {
                                                match callee_new {
                                                    ValueSpec::Constant(
                                                        ConstantSpec::Function { name },
                                                    ) => (
                                                        Result::Ok(
                                                            InstructionSpec::CallDirect {
                                                                function: name,
                                                                args: args_new,
                                                                result: result_slot,
                                                            },
                                                        ),
                                                        cstep.1,
                                                    ),
                                                    _ => (
                                                        Result::Err(
                                                            ErrorSpec::InvalidAssumption(
                                                                "direct or intrinsic call should target a named function"@,
                                                            ),
                                                        ),
                                                        cstep.1,
                                                    ),
                                                }
                                            } else {
                                                if callee_new matches ValueSpec::Constant(
                                                    ConstantSpec::Function { .. },
                                                ) {
                                                    (
                                                        Result::Err(
                                                            ErrorSpec::InvalidAssumption(
                                                                "indirect call should not target a named function"@,
                                                            ),
                                                        ),
                                                        cstep.1,
                                                    )
                                                } else {
                                                    (
                                                        Result::Ok(
                                                            InstructionSpec::CallIndirect {
                                                                callee: callee_new,
                                                                args: args_new,
                                                                result: result_slot,
                                                            },
                                                        ),
                                                        cstep.1,
                                                    )
                                                }
                                            }
                                        }
                                    }
                                }
                            }
                        }
                    }
                }
            }
            _ => (
                Result::Err(ErrorSpec::InvalidAssumption("CallInst refer to a non-function callee"@)),
                ctx.insts,
            ),
        },
    }
}

impl<'a> Context<'a> {
    /// Translate an `alloca` instruction.
    fn parse_alloca(
        &mut self,
        allocated_type: &adapter::Type,
        size: &Option<adapter::Value>,
        address_space: usize,
        ty: &adapter::Type,
        index: usize,
    ) -> (r: EngineResult<Instruction>)
        ensures
            ({
                let full = spec_parse_alloca(
                    old(self)@,
                    allocated_type@,
                    adapter::option_value_view(*size),
                    address_space as nat,
                    ty@,
                    index as nat,
                );
                &&& result_view(r) == full.0
                &&& final(self)@ == ctx_with_insts(old(self)@, full.1)
            }),
    {
        let inst_ty = match self.typing.convert(ty) {
            Result::Err(e) => {
                return Result::Err(e);
            }
            Result::Ok(t) => t,
        };
        let is_ptr = match &inst_ty {
            Type::Pointer => true,
            _ => false,
        };
        proof {
            assert(is_ptr == (inst_ty@ is Pointer));
        }
        if !is_ptr {
            return Result::Err(
                EngineError::InvalidAssumption("AllocaInst should return a pointer type".to_owned()),
            );
        }
        if address_space != 0 {
            return Result::Err(EngineError::NotSupportedYet(Unsupported::PointerAddressSpace));
        }
        let base_type = match self.typing.convert(allocated_type) {
            Result::Err(e) => {
                return Result::Err(e);
            }
            Result::Ok(t) => t,
        };
        let size_new = match size {
            Option::None => Option::None,
            Option::Some(val) => {
                match self.parse_value(val, &Type::Bitvec { bits: 64 }) {
                    Result::Err(e) => {
                        return Result::Err(e);
                    }
                    Result::Ok(v) => Option::Some(v),
                }
            }
        };
        Result::Ok(
            Instruction::Alloca {
                base_type,
                size: size_new,
                result: RegisterSlot::new(index),
            },
        )
    }

    /// Translate a `load` instruction.
    fn parse_load(
        &mut self,
        pointee_type: &adapter::Type,
        pointer: &adapter::Value,
        ordering: &String,
        address_space: usize,
        ty: &adapter::Type,
        index: usize,
    ) -> (r: EngineResult<Instruction>)
        ensures
            ({
                let full = spec_parse_load(
                    old(self)@,
                    pointee_type@,
                    pointer@,
                    ordering@,
                    address_space as nat,
                    ty@,
                    index as nat,
                );
                &&& result_view(r) == full.0
                &&& final(self)@ == ctx_with_insts(old(self)@, full.1)
            }),
    {
        if !str_eq(ordering.as_str(), "not_atomic") {
            return Result::Err(EngineError::NotSupportedYet(Unsupported::AtomicInstruction));
        }
        if address_space != 0 {
            return Result::Err(EngineError::NotSupportedYet(Unsupported::PointerAddressSpace));
        }
        let inst_ty = match self.typing.convert(ty) {
            Result::Err(e) => {
                return Result::Err(e);
            }
            Result::Ok(t) => t,
        };
        let pointee = match self.typing.convert(pointee_type) {
            Result::Err(e) => {
                return Result::Err(e);
            }
            Result::Ok(t) => t,
        };
        if !type_eq(&inst_ty, &pointee) {
            return Result::Err(
                EngineError::InvalidAssumption(
                    "LoadInst mismatch between result type and pointee type".to_owned(),
                ),
            );
        }
        match self.parse_value(pointer, &Type::Pointer) {
            Result::Err(e) => Result::Err(e),
            Result::Ok(p) => Result::Ok(
                Instruction::Load {
                    pointee_type: pointee,
                    pointer: p,
                    result: RegisterSlot::new(index),
                },
            ),
        }
    }

    /// Translate a `store` instruction.
    fn parse_store(
        &mut self,
        pointee_type: &adapter::Type,
        pointer: &adapter::Value,
        value: &adapter::Value,
        ordering: &String,
        address_space: usize,
        ty: &adapter::Type,
    ) -> (r: EngineResult<Instruction>)
        ensures
            ({
                let full = spec_parse_store(
                    old(self)@,
                    pointee_type@,
                    pointer@,
                    value@,
                    ordering@,
                    address_space as nat,
                    ty@,
                );
                &&& result_view(r) == full.0
                &&& final(self)@ == ctx_with_insts(old(self)@, full.1)
            }),
    {
        if !str_eq(ordering.as_str(), "not_atomic") {
            return Result::Err(EngineError::NotSupportedYet(Unsupported::AtomicInstruction));
        }
        if address_space != 0 {
            return Result::Err(EngineError::NotSupportedYet(Unsupported::PointerAddressSpace));
        }
        let is_void = match ty {
            adapter::Type::Void => true,
            _ => false,
        };
        proof {
            assert(is_void == (ty@ is Void));
        }
        if !is_void {
            return Result::Err(
                EngineError::InvalidAssumption("StoreInst should have void type".to_owned()),
            );
        }
        let pointee = match self.typing.convert(pointee_type) {
            Result::Err(e) => {
                return Result::Err(e);
            }
            Result::Ok(t) => t,
        };
        let pointee_for_value = type_dup(&pointee);
        let p = match self.parse_value(pointer, &Type::Pointer) {
            Result::Err(e) => {
                return Result::Err(e);
            }
            Result::Ok(v) => v,
        };
        match self.parse_value(value, &pointee_for_value) {
            Result::Err(e) => Result::Err(e),
            Result::Ok(v) => Result::Ok(
                Instruction::Store { pointee_type: pointee, pointer: p, value: v },
            ),
        }
    }

    /// Translate a call instruction; `direct` holds for direct and intrinsic
    /// calls, which must target a named function.
    fn parse_call(
        &mut self,
        callee: &adapter::Value,
        target_type: &adapter::Type,
        args: &Vec<adapter::Value>,
        ty: &adapter::Type,
        index: usize,
        direct: bool,
    ) -> (r: EngineResult<Instruction>)
        ensures
            ({
                let full = spec_parse_call(
                    old(self)@,
                    callee@,
                    target_type@,
                    adapter::values_view(args@),
                    ty@,
                    index as nat,
                    direct,
                );
                &&& result_view(r) == full.0
                &&& final(self)@ == ctx_with_insts(old(self)@, full.1)
            }),
    {
        let func_ty = match self.typing.convert(target_type) {
            Result::Err(e) => {
                return Result::Err(e);
            }
            Result::Ok(t) => t,
        };
        match func_ty {
            Type::Function { params, ret } => {
                proof {
                    assert(func_ty@ is Function);
                    assert(func_ty@->Function_params == types_view(params@));
                }
                if params.len() != args.len() {
                    return Result::Err(
                        EngineError::InvalidAssumption(
                            "CallInst number of arguments mismatch".to_owned(),
                        ),
                    );
                }
                let args_new = match self.parse_values(&params, args) {
                    Result::Err(e) => {
                        return Result::Err(e);
                    }
                    Result::Ok(v) => v,
                };
                let ret_ty: Option<Type> = match ret {
                    Option::None => {
                        let is_void = match ty {
                            adapter::Type::Void => true,
                            _ => false,
                        };
                        proof {
                            assert(is_void == (ty@ is Void));
                        }
                        if !is_void {
                            return Result::Err(
                                EngineError::InvalidAssumption(
                                    "CallInst return type mismatch".to_owned(),
                                ),
                            );
                        }
                        Option::None
                    }
                    Option::Some(t) => {
                        let inst_ty = match self.typing.convert(ty) {
                            Result::Err(e) => {
                                return Result::Err(e);
                            }
                            Result::Ok(c) => c,
                        };
                        if !type_eq(&t, &inst_ty) {
                            return Result::Err(
                                EngineError::InvalidAssumption(
                                    "CallInst return type mismatch".to_owned(),
                                ),
                            );
                        }
                        Option::Some(inst_ty)
                    }
                };
                let callee_new = match self.parse_value(callee, &Type::Pointer) {
                    Result::Err(e) => {
                        return Result::Err(e);
                    }
                    Result::Ok(v) => v,
                };
                let result_slot = match ret_ty {
                    Option::None => Option::None,
                    Option::Some(t) => Option::Some((t, RegisterSlot::new(index))),
                };
                if direct {
                    match callee_new {
                        Value::Constant(Constant::Function { name }) => Result::Ok(
                            Instruction::CallDirect {
                                function: name,
                                args: args_new,
                                result: result_slot,
                            },
                        ),
                        _ => Result::Err(
                            EngineError::InvalidAssumption(
                                "direct or intrinsic call should target a named function"
                                    .to_owned(),
                            ),
                        ),
                    }
                } else {
                    let is_named = match &callee_new {
                        Value::Constant(Constant::Function { .. }) => true,
                        _ => false,
                    };
                    proof {
                        assert(is_named == (callee_new@ matches ValueSpec::Constant(
                            ConstantSpec::Function { .. },
                        )));
                    }
                    if is_named {
                        Result::Err(
                            EngineError::InvalidAssumption(
                                "indirect call should not target a named function".to_owned(),
                            ),
                        )
                    } else {
                        Result::Ok(
                            Instruction::CallIndirect {
                                callee: callee_new,
                                args: args_new,
                                result: result_slot,
                            },
                        )
                    }
                }
            }
            _ => {
                proof {
                    assert(!(spec_convert_type(old(self)@.typing, target_type@)->Ok_0
                        is Function));
                }
                Result::Err(
                    EngineError::InvalidAssumption(
                        "CallInst refer to a non-function callee".to_owned(),
                    ),
                )
            }
        }
    }
}


/// What translating an integer binary operation yields: the instruction type
/// fixes the width and both operands are parsed against it.
pub open spec fn spec_parse_binary(
    ctx: ContextSpec,
    opcode: Seq<char>,
    lhs: adapter::ValueSpec,
    rhs: adapter::ValueSpec,
    ty: adapter::TypeSpec,
    index: nat,
) -> (Result<InstructionSpec, ErrorSpec>, Seq<(nat, Option<TypeSpec>)>) {
    match spec_convert_type(ctx.typing, ty) {
        Result::Err(e) => (Result::Err(e), ctx.insts),
        Result::Ok(inst_ty) => match inst_ty {
            TypeSpec::Bitvec { bits } => match spec_parse_binop(opcode) {
                Result::Err(e) => (Result::Err(e), ctx.insts),
                Result::Ok(op) => {
                    let lstep = spec_parse_value(ctx, lhs, inst_ty);
                    match lstep.0 {
                        Result::Err(e) => (Result::Err(e), lstep.1),
                        Result::Ok(l) => {
                            let rstep = spec_parse_value(
                                ctx_with_insts(ctx, lstep.1),
                                rhs,
                                inst_ty,
                            );
                            match rstep.0 {
                                Result::Err(e) => (Result::Err(e), rstep.1),
                                Result::Ok(rv) => (
                                    Result::Ok(
                                        InstructionSpec::Binary {
                                            bits,
                                            opcode: op,
                                            lhs: l,
                                            rhs: rv,
                                            result: index,
                                        },
                                    ),
                                    rstep.1,
                                ),
                            }
                        }
                    }
                }
            },
            _ => (
                Result::Err(
                    ErrorSpec::InvalidAssumption("binary operator has non-bitvec instruction type"@),
                ),
                ctx.insts,
            ),
        },
    }
}

/// What translating a comparison yields: the instruction type must be the
/// 1-bit bitvector, and the operands share one bitvec or pointer type.
pub open spec fn spec_parse_compare(
    ctx: ContextSpec,
    predicate: Seq<char>,
    operand_type: adapter::TypeSpec,
    lhs: adapter::ValueSpec,
    rhs: adapter::ValueSpec,
    ty: adapter::TypeSpec,
    index: nat,
) -> (Result<InstructionSpec, ErrorSpec>, Seq<(nat, Option<TypeSpec>)>) {
    match spec_convert_type(ctx.typing, ty) {
        Result::Err(e) => (Result::Err(e), ctx.insts),
        Result::Ok(inst_ty) => {
            let bool_check: Result<(), ErrorSpec> = match inst_ty {
                TypeSpec::Bitvec { bits } => {
                    if bits != 1 {
                        Result::Err(
                            ErrorSpec::InvalidAssumption(
                                "compare inst has non-bool instruction type"@,
                            ),
                        )
                    } else {
                        Result::Ok(())
                    }
                }
                _ => Result::Err(
                    ErrorSpec::InvalidAssumption("compare inst has non-bitvec instruction type"@),
                ),
            };
            match bool_check {
                Result::Err(e) => (Result::Err(e), ctx.insts),
                Result::Ok(u) => match spec_convert_type(ctx.typing, operand_type) {
                    Result::Err(e) => (Result::Err(e), ctx.insts),
                    Result::Ok(operand_ty) => {
                        let bits_check: Result<Option<nat>, ErrorSpec> = match operand_ty {
                            TypeSpec::Bitvec { bits } => Result::Ok(Option::Some(bits)),
                            TypeSpec::Pointer => Result::Ok(Option::None),
                            _ => Result::Err(
                                ErrorSpec::InvalidAssumption(
                                    "compare inst has operand type that is neither bitvec or ptr"@,
                                ),
                            ),
                        };
                        match bits_check {
                            Result::Err(e) => (Result::Err(e), ctx.insts),
                            Result::Ok(bits) => match spec_parse_predicate(predicate) {
                                Result::Err(e) => (Result::Err(e), ctx.insts),
                                Result::Ok(pred) => {
                                    let lstep = spec_parse_value(ctx, lhs, operand_ty);
                                    match lstep.0 {
                                        Result::Err(e) => (Result::Err(e), lstep.1),
                                        Result::Ok(l) => {
                                            let rstep = spec_parse_value(
                                                ctx_with_insts(ctx, lstep.1),
                                                rhs,
                                                operand_ty,
                                            );
                                            match rstep.0 {
                                                Result::Err(e) => (Result::Err(e), rstep.1),
                                                Result::Ok(rv) => (
                                                    Result::Ok(
                                                        InstructionSpec::Compare {
                                                            bits,
                                                            predicate: pred,
                                                            lhs: l,
                                                            rhs: rv,
                                                            result: index,
                                                        },
                                                    ),
                                                    rstep.1,
                                                ),
                                            }
                                        }
                                    }
                                }
                            },
                        }
                    }
                },
            }
        }
    }
}

/// What translating a cast yields, by opcode: bitvec resizing casts, the two
/// pointer-integer casts restricted to address space zero, and the
/// pointer-to-pointer bitcast.
pub open spec fn spec_parse_cast(
    ctx: ContextSpec,
    opcode: Seq<char>,
    src_ty: adapter::TypeSpec,
    dst_ty: adapter::TypeSpec,
    src_address_space: Option<nat>,
    dst_address_space: Option<nat>,
    operand: adapter::ValueSpec,
    ty: adapter::TypeSpec,
    index: nat,
) -> (Result<InstructionSpec, ErrorSpec>, Seq<(nat, Option<TypeSpec>)>) {
    match spec_convert_type(ctx.typing, ty) {
        Result::Err(e) => (Result::Err(e), ctx.insts),
        Result::Ok(inst_ty) => match spec_convert_type(ctx.typing, src_ty) {
            Result::Err(e) => (Result::Err(e), ctx.insts),
            Result::Ok(src) => match spec_convert_type(ctx.typing, dst_ty) {
                Result::Err(e) => (Result::Err(e), ctx.insts),
                Result::Ok(dst) => {
                    if dst != inst_ty {
                        (
                            Result::Err(
                                ErrorSpec::InvariantViolation(
                                    "type mismatch between dst type and inst type for cast"@,
                                ),
                            ),
                            ctx.insts,
                        )
                    } else {
                        let step = spec_parse_value(ctx, operand, src);
                        match step.0 {
                            Result::Err(e) => (Result::Err(e), step.1),
                            Result::Ok(op) => {
                                let out: Result<InstructionSpec, ErrorSpec> = if opcode
                                    == "trunc"@ || opcode == "zext"@ || opcode == "sext"@ {
                                    match (src, dst) {
                                        (
                                            TypeSpec::Bitvec { bits: bits_from },
                                            TypeSpec::Bitvec { bits: bits_into },
                                        ) => Result::Ok(
                                            InstructionSpec::CastBitvec {
                                                bits_from,
                                                bits_into,
                                                operand: op,
                                                result: index,
                                            },
                                        ),
                                        _ => Result::Err(
                                            ErrorSpec::InvalidAssumption(
                                                "expect bitvec type for bitvec cast"@,
                                            ),
                                        ),
                                    }
                                } else if opcode == "ptr_to_int"@ {
                                    match (src, dst) {
                                        (TypeSpec::Pointer, TypeSpec::Bitvec { bits: bits_into }) => {
                                            match src_address_space {
                                                Option::None => Result::Err(
                                                    ErrorSpec::InvalidAssumption(
                                                        "expect (src address_space) for ptr_to_int cast"@,
                                                    ),
                                                ),
                                                Option::Some(space) => {
                                                    if space == 0 {
                                                        Result::Ok(
                                                            InstructionSpec::CastPtrToBitvec {
                                                                bits_into,
                                                                operand: op,
                                                                result: index,
                                                            },
                                                        )
                                                    } else {
                                                        Result::Err(
                                                            ErrorSpec::NotSupportedYet(
                                                                Unsupported::PointerAddressSpace,
                                                            ),
                                                        )
                                                    }
                                                }
                                            }
                                        }
                                        _ => Result::Err(
                                            ErrorSpec::InvalidAssumption(
                                                "expect (ptr, bitvec) for ptr_to_int cast"@,
                                            ),
                                        ),
                                    }
                                } else if opcode == "int_to_ptr"@ {
                                    match (src, dst) {
                                        (TypeSpec::Bitvec { bits: bits_from }, TypeSpec::Pointer) => {
                                            match dst_address_space {
                                                Option::None => Result::Err(
                                                    ErrorSpec::InvalidAssumption(
                                                        "expect (dst address_space) for int_to_ptr cast"@,
                                                    ),
                                                ),
                                                Option::Some(space) => {
                                                    if space == 0 {
                                                        Result::Ok(
                                                            InstructionSpec::CastBitvecToPtr {
                                                                bits_from,
                                                                operand: op,
                                                                result: index,
                                                            },
                                                        )
                                                    } else {
                                                        Result::Err(
                                                            ErrorSpec::NotSupportedYet(
                                                                Unsupported::PointerAddressSpace,
                                                            ),
                                                        )
                                                    }
                                                }
                                            }
                                        }
                                        _ => Result::Err(
                                            ErrorSpec::InvalidAssumption(
                                                "expect (bitvec, ptr) for int_to_ptr cast"@,
                                            ),
                                        ),
                                    }
                                } else if opcode == "bitcast"@ {
                                    match (src, dst) {
                                        (TypeSpec::Pointer, TypeSpec::Pointer) => Result::Ok(
                                            InstructionSpec::CastPtr { operand: op, result: index },
                                        ),
                                        _ => Result::Err(
                                            ErrorSpec::InvalidAssumption(
                                                "expect ptr type for bitcast"@,
                                            ),
                                        ),
                                    }
                                } else if opcode == "address_space_cast"@ {
                                    Result::Err(
                                        ErrorSpec::NotSupportedYet(Unsupported::PointerAddressSpace),
                                    )
                                } else {
                                    Result::Err(
                                        ErrorSpec::InvalidAssumption(
                                            "unexpected cast opcode: "@ + opcode,
                                        ),
                                    )
                                };
                                match out {
                                    Result::Err(e) => (Result::Err(e), step.1),
                                    Result::Ok(inst) => (Result::Ok(inst), step.1),
                                }
                            }
                        }
                    }
                }
            },
        },
    }
}

/// What translating a `freeze` yields: an undefined bitvector or pointer
/// operand maps to the explicit freeze forms; any other operand is a
/// semantic no-op pass-through.
pub open spec fn spec_parse_freeze(
    ctx: ContextSpec,
    operand: adapter::ValueSpec,
    ty: adapter::TypeSpec,
) -> (Result<InstructionSpec, ErrorSpec>, Seq<(nat, Option<TypeSpec>)>) {
    match spec_convert_type(ctx.typing, ty) {
        Result::Err(e) => (Result::Err(e), ctx.insts),
        Result::Ok(inst_ty) => {
            let step = spec_parse_value(ctx, operand, inst_ty);
            match step.0 {
                Result::Err(e) => (Result::Err(e), step.1),
                Result::Ok(v) => match v {
                    ValueSpec::Constant(ConstantSpec::UndefBitvec { bits }) => (
                        Result::Ok(InstructionSpec::FreezeBitvec { bits }),
                        step.1,
                    ),
                    ValueSpec::Constant(ConstantSpec::UndefPointer) => (
                        Result::Ok(InstructionSpec::FreezePtr),
                        step.1,
                    ),
                    _ => (Result::Ok(InstructionSpec::FreezeNop { value: v }), step.1),
                },
            }
        }
    }
}

impl<'a> Context<'a> {
    /// Translate an integer binary operation.
    fn parse_binary(
        &mut self,
        opcode: &String,
        lhs: &adapter::Value,
        rhs: &adapter::Value,
        ty: &adapter::Type,
        index: usize,
    ) -> (r: EngineResult<Instruction>)
        ensures
            ({
                let full = spec_parse_binary(old(self)@, opcode@, lhs@, rhs@, ty@, index as nat);
                &&& result_view(r) == full.0
                &&& final(self)@ == ctx_with_insts(old(self)@, full.1)
            }),
    {
        let inst_ty = match self.typing.convert(ty) {
            Result::Err(e) => {
                return Result::Err(e);
            }
            Result::Ok(t) => t,
        };
        let bits = match &inst_ty {
            Type::Bitvec { bits } => *bits,
            _ => {
                proof {
                    assert(!(inst_ty@ is Bitvec));
                }
                return Result::Err(
                    EngineError::InvalidAssumption(
                        "binary operator has non-bitvec instruction type".to_owned(),
                    ),
                );
            }
        };
        proof {
            assert(inst_ty@ == (TypeSpec::Bitvec { bits: bits as nat }));
        }
        let opcode_parsed = match BinaryOperator::parse(opcode.as_str()) {
            Result::Err(e) => {
                return Result::Err(e);
            }
            Result::Ok(o) => o,
        };
        let lhs_new = match self.parse_value(lhs, &inst_ty) {
            Result::Err(e) => {
                return Result::Err(e);
            }
            Result::Ok(v) => v,
        };
        let rhs_new = match self.parse_value(rhs, &inst_ty) {
            Result::Err(e) => {
                return Result::Err(e);
            }
            Result::Ok(v) => v,
        };
        Result::Ok(
            Instruction::Binary {
                bits,
                opcode: opcode_parsed,
                lhs: lhs_new,
                rhs: rhs_new,
                result: RegisterSlot::new(index),
            },
        )
    }

    /// Translate a comparison.
    fn parse_compare(
        &mut self,
        predicate: &String,
        operand_type: &adapter::Type,
        lhs: &adapter::Value,
        rhs: &adapter::Value,
        ty: &adapter::Type,
        index: usize,
    ) -> (r: EngineResult<Instruction>)
        ensures
            ({
                let full = spec_parse_compare(
                    old(self)@,
                    predicate@,
                    operand_type@,
                    lhs@,
                    rhs@,
                    ty@,
                    index as nat,
                );
                &&& result_view(r) == full.0
                &&& final(self)@ == ctx_with_insts(old(self)@, full.1)
            }),
    {
        let inst_ty = match self.typing.convert(ty) {
            Result::Err(e) => {
                return Result::Err(e);
            }
            Result::Ok(t) => t,
        };
        match &inst_ty {
            Type::Bitvec { bits } => {
                proof {
                    assert(inst_ty@ == (TypeSpec::Bitvec { bits: *bits as nat }));
                }
                if *bits != 1 {
                    return Result::Err(
                        EngineError::InvalidAssumption(
                            "compare inst has non-bool instruction type".to_owned(),
                        ),
                    );
                }
            }
            _ => {
                proof {
                    assert(!(inst_ty@ is Bitvec));
                }
                return Result::Err(
                    EngineError::InvalidAssumption(
                        "compare inst has non-bitvec instruction type".to_owned(),
                    ),
                );
            }
        }
        let operand_ty = match self.typing.convert(operand_type) {
            Result::Err(e) => {
                return Result::Err(e);
            }
            Result::Ok(t) => t,
        };
        let bits: Option<usize> = match &operand_ty {
            Type::Bitvec { bits } => {
                proof {
                    assert(operand_ty@ == (TypeSpec::Bitvec { bits: *bits as nat }));
                }
                Option::Some(*bits)
            }
            Type::Pointer => Option::None,
            _ => {
                proof {
                    assert(!(operand_ty@ is Bitvec) && !(operand_ty@ is Pointer));
                }
                return Result::Err(
                    EngineError::InvalidAssumption(
                        "compare inst has operand type that is neither bitvec or ptr".to_owned(),
                    ),
                );
            }
        };
        let predicate_parsed = match ComparePredicate::parse(predicate.as_str()) {
            Result::Err(e) => {
                return Result::Err(e);
            }
            Result::Ok(p) => p,
        };
        let lhs_new = match self.parse_value(lhs, &operand_ty) {
            Result::Err(e) => {
                return Result::Err(e);
            }
            Result::Ok(v) => v,
        };
        let rhs_new = match self.parse_value(rhs, &operand_ty) {
            Result::Err(e) => {
                return Result::Err(e);
            }
            Result::Ok(v) => v,
        };
        Result::Ok(
            Instruction::Compare {
                bits,
                predicate: predicate_parsed,
                lhs: lhs_new,
                rhs: rhs_new,
                result: RegisterSlot::new(index),
            },
        )
    }

    /// Translate a cast.
    fn parse_cast(
        &mut self,
        opcode: &String,
        src_ty: &adapter::Type,
        dst_ty: &adapter::Type,
        src_address_space: &Option<usize>,
        dst_address_space: &Option<usize>,
        operand: &adapter::Value,
        ty: &adapter::Type,
        index: usize,
    ) -> (r: EngineResult<Instruction>)
        ensures
            ({
                let full = spec_parse_cast(
                    old(self)@,
                    opcode@,
                    src_ty@,
                    dst_ty@,
                    adapter::option_usize_view(*src_address_space),
                    adapter::option_usize_view(*dst_address_space),
                    operand@,
                    ty@,
                    index as nat,
                );
                &&& result_view(r) == full.0
                &&& final(self)@ == ctx_with_insts(old(self)@, full.1)
            }),
    {
        let inst_ty = match self.typing.convert(ty) {
            Result::Err(e) => {
                return Result::Err(e);
            }
            Result::Ok(t) => t,
        };
        let src = match self.typing.convert(src_ty) {
            Result::Err(e) => {
                return Result::Err(e);
            }
            Result::Ok(t) => t,
        };
        let dst = match self.typing.convert(dst_ty) {
            Result::Err(e) => {
                return Result::Err(e);
            }
            Result::Ok(t) => t,
        };
        if !type_eq(&dst, &inst_ty) {
            return Result::Err(
                EngineError::InvariantViolation(
                    "type mismatch between dst type and inst type for cast".to_owned(),
                ),
            );
        }
        let operand_new = match self.parse_value(operand, &src) {
            Result::Err(e) => {
                return Result::Err(e);
            }
            Result::Ok(v) => v,
        };
        if str_eq(opcode.as_str(), "trunc") || str_eq(opcode.as_str(), "zext") || str_eq(
            opcode.as_str(),
            "sext",
        ) {
            match (&src, &dst) {
                (Type::Bitvec { bits: bits_from }, Type::Bitvec { bits: bits_into }) => {
                    proof {
                        assert(src@ == (TypeSpec::Bitvec { bits: *bits_from as nat }));
                        assert(dst@ == (TypeSpec::Bitvec { bits: *bits_into as nat }));
                    }
                    Result::Ok(
                        Instruction::CastBitvec {
                            bits_from: *bits_from,
                            bits_into: *bits_into,
                            operand: operand_new,
                            result: RegisterSlot::new(index),
                        },
                    )
                }
                _ => {
                    proof {
                        assert(!(src@ is Bitvec) || !(dst@ is Bitvec));
                    }
                    Result::Err(
                        EngineError::InvalidAssumption(
                            "expect bitvec type for bitvec cast".to_owned(),
                        ),
                    )
                }
            }
        } else if str_eq(opcode.as_str(), "ptr_to_int") {
            match (&src, &dst) {
                (Type::Pointer, Type::Bitvec { bits: bits_into }) => {
                    proof {
                        assert(src@ is Pointer);
                        assert(dst@ == (TypeSpec::Bitvec { bits: *bits_into as nat }));
                    }
                    match src_address_space {
                        Option::None => Result::Err(
                            EngineError::InvalidAssumption(
                                "expect (src address_space) for ptr_to_int cast".to_owned(),
                            ),
                        ),
                        Option::Some(space) => {
                            if *space == 0 {
                                Result::Ok(
                                    Instruction::CastPtrToBitvec {
                                        bits_into: *bits_into,
                                        operand: operand_new,
                                        result: RegisterSlot::new(index),
                                    },
                                )
                            } else {
                                Result::Err(
                                    EngineError::NotSupportedYet(Unsupported::PointerAddressSpace),
                                )
                            }
                        }
                    }
                }
                _ => {
                    proof {
                        assert(!(src@ is Pointer) || !(dst@ is Bitvec));
                    }
                    Result::Err(
                        EngineError::InvalidAssumption(
                            "expect (ptr, bitvec) for ptr_to_int cast".to_owned(),
                        ),
                    )
                }
            }
        } else if str_eq(opcode.as_str(), "int_to_ptr") {
            match (&src, &dst) {
                (Type::Bitvec { bits: bits_from }, Type::Pointer) => {
                    proof {
                        assert(src@ == (TypeSpec::Bitvec { bits: *bits_from as nat }));
                        assert(dst@ is Pointer);
                    }
                    match dst_address_space {
                        Option::None => Result::Err(
                            EngineError::InvalidAssumption(
                                "expect (dst address_space) for int_to_ptr cast".to_owned(),
                            ),
                        ),
                        Option::Some(space) => {
                            if *space == 0 {
                                Result::Ok(
                                    Instruction::CastBitvecToPtr {
                                        bits_from: *bits_from,
                                        operand: operand_new,
                                        result: RegisterSlot::new(index),
                                    },
                                )
                            } else {
                                Result::Err(
                                    EngineError::NotSupportedYet(Unsupported::PointerAddressSpace),
                                )
                            }
                        }
                    }
                }
                _ => {
                    proof {
                        assert(!(src@ is Bitvec) || !(dst@ is Pointer));
                    }
                    Result::Err(
                        EngineError::InvalidAssumption(
                            "expect (bitvec, ptr) for int_to_ptr cast".to_owned(),
                        ),
                    )
                }
            }
        } else if str_eq(opcode.as_str(), "bitcast") {
            match (&src, &dst) {
                (Type::Pointer, Type::Pointer) => Result::Ok(
                    Instruction::CastPtr { operand: operand_new, result: RegisterSlot::new(index) },
                ),
                _ => {
                    proof {
                        assert(!(src@ is Pointer) || !(dst@ is Pointer));
                    }
                    Result::Err(
                        EngineError::InvalidAssumption("expect ptr type for bitcast".to_owned()),
                    )
                }
            }
        } else if str_eq(opcode.as_str(), "address_space_cast") {
            Result::Err(EngineError::NotSupportedYet(Unsupported::PointerAddressSpace))
        } else {
            let mut msg = "unexpected cast opcode: ".to_owned();
            msg.append(opcode.as_str());
            Result::Err(EngineError::InvalidAssumption(msg))
        }
    }

    /// Translate a `freeze`.
    fn parse_freeze(&mut self, operand: &adapter::Value, ty: &adapter::Type) -> (r: EngineResult<
        Instruction,
    >)
        ensures
            ({
                let full = spec_parse_freeze(old(self)@, operand@, ty@);
                &&& result_view(r) == full.0
                &&& final(self)@ == ctx_with_insts(old(self)@, full.1)
            }),
    {
        let inst_ty = match self.typing.convert(ty) {
            Result::Err(e) => {
                return Result::Err(e);
            }
            Result::Ok(t) => t,
        };
        match self.parse_value(operand, &inst_ty) {
            Result::Err(e) => Result::Err(e),
            Result::Ok(v) => {
                let kind: u8 = match &v {
                    Value::Constant(Constant::UndefBitvec { .. }) => 1,
                    Value::Constant(Constant::UndefPointer) => 2,
                    _ => 0,
                };
                proof {
                    assert((kind == 1) == (v@ matches ValueSpec::Constant(
                        ConstantSpec::UndefBitvec { .. },
                    )));
                    assert((kind == 2) == (v@ matches ValueSpec::Constant(
                        ConstantSpec::UndefPointer,
                    )));
                }
                match v {
                    Value::Constant(Constant::UndefBitvec { bits }) => Result::Ok(
                        Instruction::FreezeBitvec { bits },
                    ),
                    Value::Constant(Constant::UndefPointer) => Result::Ok(Instruction::FreezePtr),
                    other => Result::Ok(Instruction::FreezeNop { value: other }),
                }
            }
        }
    }
}


/// Walking the tail of a GEP index chain: a struct field index must be a
/// constant 32-bit bitvector in range of the field list; an array element
/// index is any integral value.  Collects the parsed indices into `acc` and
/// yields the resolved type.
pub open spec fn spec_gep_walk(
    ctx: ContextSpec,
    cur: TypeSpec,
    rest: Seq<adapter::ValueSpec>,
    acc: Seq<ValueSpec>,
) -> (Result<(Seq<ValueSpec>, TypeSpec), ErrorSpec>, Seq<(nat, Option<TypeSpec>)>)
    decreases rest.len(),
{
    if rest.len() == 0 {
        (Result::Ok((acc, cur)), ctx.insts)
    } else {
        match cur {
            TypeSpec::Struct { name, fields } => {
                let step = spec_parse_value(ctx, rest[0], TypeSpec::Bitvec { bits: 32 as nat });
                match step.0 {
                    Result::Err(e) => (Result::Err(e), step.1),
                    Result::Ok(idx_new) => match idx_new {
                        ValueSpec::Constant(ConstantSpec::Bitvec { bits, value }) => {
                            if value < 0 || value > usize::MAX as int {
                                (
                                    Result::Err(
                                        ErrorSpec::InvariantViolation(
                                            "field number must be within the range of usize"@,
                                        ),
                                    ),
                                    step.1,
                                )
                            } else if value >= fields.len() {
                                (
                                    Result::Err(
                                        ErrorSpec::InvalidAssumption("field number out of range"@),
                                    ),
                                    step.1,
                                )
                            } else {
                                spec_gep_walk(
                                    ctx_with_insts(ctx, step.1),
                                    fields[value],
                                    rest.subrange(1, rest.len() as int),
                                    acc.push(idx_new),
                                )
                            }
                        }
                        _ => (
                            Result::Err(ErrorSpec::InvalidAssumption("field number must be bv32"@)),
                            step.1,
                        ),
                    },
                }
            }
            TypeSpec::Array { element, length } => {
                let step = spec_parse_value_bv32_or_bv64(ctx, rest[0]);
                match step.0 {
                    Result::Err(e) => (Result::Err(e), step.1),
                    Result::Ok(idx_new) => spec_gep_walk(
                        ctx_with_insts(ctx, step.1),
                        *element,
                        rest.subrange(1, rest.len() as int),
                        acc.push(idx_new),
                    ),
                }
            }
            _ => (
                Result::Err(ErrorSpec::InvalidAssumption("GEP only applies to array and struct"@)),
                ctx.insts,
            ),
        }
    }
}

/// What translating a GEP yields: address space zero, a pointer result type,
/// a non-empty index list whose head is the bv32-or-bv64 offset, a walked
/// chain that ends exactly at the declared destination type, and the base
/// pointer parsed last.
pub open spec fn spec_parse_gep(
    ctx: ContextSpec,
    src_pointee_ty: adapter::TypeSpec,
    dst_pointee_ty: adapter::TypeSpec,
    pointer: adapter::ValueSpec,
    indices: Seq<adapter::ValueSpec>,
    address_space: nat,
    ty: adapter::TypeSpec,
    index: nat,
) -> (Result<InstructionSpec, ErrorSpec>, Seq<(nat, Option<TypeSpec>)>) {
    if address_space != 0 {
        (Result::Err(ErrorSpec::NotSupportedYet(Unsupported::PointerAddressSpace)), ctx.insts)
    } else {
        match spec_convert_type(ctx.typing, ty) {
            Result::Err(e) => (Result::Err(e), ctx.insts),
            Result::Ok(inst_ty) => {
                if !(inst_ty is Pointer) {
                    (
                        Result::Err(
                            ErrorSpec::InvalidAssumption("GEP should return a pointer type"@),
                        ),
                        ctx.insts,
                    )
                } else {
                    match spec_convert_type(ctx.typing, src_pointee_ty) {
                        Result::Err(e) => (Result::Err(e), ctx.insts),
                        Result::Ok(src) => match spec_convert_type(ctx.typing, dst_pointee_ty) {
                            Result::Err(e) => (Result::Err(e), ctx.insts),
                            Result::Ok(dst) => {
                                if indices.len() == 0 {
                                    (
                                        Result::Err(
                                            ErrorSpec::InvalidAssumption("GEP contains no index"@),
                                        ),
                                        ctx.insts,
                                    )
                                } else {
                                    let ostep = spec_parse_value_bv32_or_bv64(ctx, indices[0]);
                                    match ostep.0 {
                                        Result::Err(e) => (Result::Err(e), ostep.1),
                                        Result::Ok(offset) => {
                                            let wstep = spec_gep_walk(
                                                ctx_with_insts(ctx, ostep.1),
                                                src,
                                                indices.subrange(1, indices.len() as int),
                                                Seq::empty(),
                                            );
                                            match wstep.0 {
                                                Result::Err(e) => (Result::Err(e), wstep.1),
                                                Result::Ok(walked) => {
                                                    if walked.1 != dst {
                                                        (
                                                            Result::Err(
                                                                ErrorSpec::InvalidAssumption(
                                                                    "GEP destination type mismatch"@,
                                                                ),
                                                            ),
                                                            wstep.1,
                                                        )
                                                    } else {
                                                        let pstep = spec_parse_value(
                                                            ctx_with_insts(ctx, wstep.1),
                                                            pointer,
                                                            TypeSpec::Pointer,
                                                        );
                                                        match pstep.0 {
                                                            Result::Err(e) => (
                                                                Result::Err(e),
                                                                pstep.1,
                                                            ),
                                                            Result::Ok(p) => (
                                                                Result::Ok(
                                                                    InstructionSpec::GEP {
                                                                        src_pointee_type: src,
                                                                        dst_pointee_type: dst,
                                                                        pointer: p,
                                                                        offset,
                                                                        indices: walked.0,
                                                                        result: index,
                                                                    },
                                                                ),
                                                                pstep.1,
                                                            ),
                                                        }
                                                    }
                                                }
                                            }
                                        }
                                    }
                                }
                            }
                        },
                    }
                }
            }
        }
    }
}

/// What translating a select yields: the condition is the 1-bit bitvector and
/// both branches are parsed against the instruction type.
pub open spec fn spec_parse_ite(
    ctx: ContextSpec,
    cond: adapter::ValueSpec,
    then_value: adapter::ValueSpec,
    else_value: adapter::ValueSpec,
    ty: adapter::TypeSpec,
    index: nat,
) -> (Result<InstructionSpec, ErrorSpec>, Seq<(nat, Option<TypeSpec>)>) {
    let cstep = spec_parse_value(ctx, cond, TypeSpec::Bitvec { bits: 1 as nat });
    match cstep.0 {
        Result::Err(e) => (Result::Err(e), cstep.1),
        Result::Ok(c) => match spec_convert_type(ctx.typing, ty) {
            Result::Err(e) => (Result::Err(e), cstep.1),
            Result::Ok(inst_ty) => {
                let tstep = spec_parse_value(ctx_with_insts(ctx, cstep.1), then_value, inst_ty);
                match tstep.0 {
                    Result::Err(e) => (Result::Err(e), tstep.1),
                    Result::Ok(t) => {
                        let estep = spec_parse_value(
                            ctx_with_insts(ctx, tstep.1),
                            else_value,
                            inst_ty,
                        );
                        match estep.0 {
                            Result::Err(e) => (Result::Err(e), estep.1),
                            Result::Ok(ev) => (
                                Result::Ok(
                                    InstructionSpec::ITE {
                                        cond: c,
                                        then_value: t,
                                        else_value: ev,
                                        result: index,
                                    },
                                ),
                                estep.1,
                            ),
                        }
                    }
                }
            }
        },
    }
}

/// The value stored under a phi label: the first entry carrying it.
pub open spec fn phi_find(s: Seq<(nat, ValueSpec)>, k: nat) -> Option<ValueSpec>
    decreases s.len(),
{
    if s.len() == 0 {
        Option::None
    } else if s[0].0 == k {
        Option::Some(s[0].1)
    } else {
        phi_find(s.subrange(1, s.len() as int), k)
    }
}

/// Collecting the incoming edges of a phi node into `acc`: each edge's block
/// must be known; a duplicate edge for the same block must carry an equal
/// value, and collapses into the one stored entry.
pub open spec fn spec_phi_options(
    ctx: ContextSpec,
    inst_ty: TypeSpec,
    options: Seq<adapter::PhiOptionSpec>,
    acc: Seq<(nat, ValueSpec)>,
) -> (Result<Seq<(nat, ValueSpec)>, ErrorSpec>, Seq<(nat, Option<TypeSpec>)>)
    decreases options.len(),
{
    if options.len() == 0 {
        (Result::Ok(acc), ctx.insts)
    } else {
        let opt = options[0];
        if !ctx.blocks.contains(opt.block) {
            (
                Result::Err(ErrorSpec::InvariantViolation("unknown incoming edge into phi node"@)),
                ctx.insts,
            )
        } else {
            let step = spec_parse_value(ctx, opt.value, inst_ty);
            match step.0 {
                Result::Err(e) => (Result::Err(e), step.1),
                Result::Ok(v) => match phi_find(acc, opt.block) {
                    Option::None => spec_phi_options(
                        ctx_with_insts(ctx, step.1),
                        inst_ty,
                        options.subrange(1, options.len() as int),
                        acc.push((opt.block, v)),
                    ),
                    Option::Some(existing) => {
                        if existing != v {
                            (
                                Result::Err(
                                    ErrorSpec::InvariantViolation(
                                        "duplicated edges into phi node with different values"@,
                                    ),
                                ),
                                step.1,
                            )
                        } else {
                            spec_phi_options(
                                ctx_with_insts(ctx, step.1),
                                inst_ty,
                                options.subrange(1, options.len() as int),
                                acc,
                            )
                        }
                    }
                },
            }
        }
    }
}

/// What translating a phi yields.
pub open spec fn spec_parse_phi(
    ctx: ContextSpec,
    options: Seq<adapter::PhiOptionSpec>,
    ty: adapter::TypeSpec,
    index: nat,
) -> (Result<InstructionSpec, ErrorSpec>, Seq<(nat, Option<TypeSpec>)>) {
    match spec_convert_type(ctx.typing, ty) {
        Result::Err(e) => (Result::Err(e), ctx.insts),
        Result::Ok(inst_ty) => {
            let ostep = spec_phi_options(ctx, inst_ty, options, Seq::empty());
            match ostep.0 {
                Result::Err(e) => (Result::Err(e), ostep.1),
                Result::Ok(opts) => (
                    Result::Ok(InstructionSpec::Phi { ty: inst_ty, options: opts, result: index }),
                    ostep.1,
                ),
            }
        }
    }
}

/// What translating an aggregate read yields: the index chain walked over the
/// source type must end exactly at the declared destination type.
pub open spec fn spec_parse_get_value(
    ctx: ContextSpec,
    from_ty: adapter::TypeSpec,
    aggregate: adapter::ValueSpec,
    indices: Seq<nat>,
    ty: adapter::TypeSpec,
    index: nat,
) -> (Result<InstructionSpec, ErrorSpec>, Seq<(nat, Option<TypeSpec>)>) {
    match spec_convert_type(ctx.typing, from_ty) {
        Result::Err(e) => (Result::Err(e), ctx.insts),
        Result::Ok(src) => match spec_convert_type(ctx.typing, ty) {
            Result::Err(e) => (Result::Err(e), ctx.insts),
            Result::Ok(dst) => match spec_walk_indices(src, indices) {
                Result::Err(e) => (Result::Err(e), ctx.insts),
                Result::Ok(cur) => {
                    if cur != dst {
                        (
                            Result::Err(
                                ErrorSpec::InvalidAssumption("GetValue destination type mismatch"@),
                            ),
                            ctx.insts,
                        )
                    } else {
                        let astep = spec_parse_value(ctx, aggregate, src);
                        match astep.0 {
                            Result::Err(e) => (Result::Err(e), astep.1),
                            Result::Ok(a) => (
                                Result::Ok(
                                    InstructionSpec::GetValue {
                                        src_ty: src,
                                        dst_ty: dst,
                                        aggregate: a,
                                        indices,
                                        result: index,
                                    },
                                ),
                                astep.1,
                            ),
                        }
                    }
                }
            },
        },
    }
}

/// What translating an aggregate write yields: the walked chain fixes the
/// written value's type; the instruction type is the aggregate's own type.
pub open spec fn spec_parse_set_value(
    ctx: ContextSpec,
    aggregate: adapter::ValueSpec,
    value: adapter::ValueSpec,
    indices: Seq<nat>,
    ty: adapter::TypeSpec,
    index: nat,
) -> (Result<InstructionSpec, ErrorSpec>, Seq<(nat, Option<TypeSpec>)>) {
    match spec_convert_type(ctx.typing, ty) {
        Result::Err(e) => (Result::Err(e), ctx.insts),
        Result::Ok(src) => match spec_walk_indices(src, indices) {
            Result::Err(e) => (Result::Err(e), ctx.insts),
            Result::Ok(dst) => {
                let astep = spec_parse_value(ctx, aggregate, src);
                match astep.0 {
                    Result::Err(e) => (Result::Err(e), astep.1),
                    Result::Ok(a) => {
                        let vstep = spec_parse_value(ctx_with_insts(ctx, astep.1), value, dst);
                        match vstep.0 {
                            Result::Err(e) => (Result::Err(e), vstep.1),
                            Result::Ok(v) => (
                                Result::Ok(
                                    InstructionSpec::SetValue {
                                        src_ty: src,
                                        dst_ty: dst,
                                        aggregate: a,
                                        value: v,
                                        indices,
                                        result: index,
                                    },
                                ),
                                vstep.1,
                            ),
                        }
                    }
                }
            }
        },
    }
}

impl<'a> Context<'a> {
    /// Translate a GEP.
    #[verifier::loop_isolation(false)]
    fn parse_gep(
        &mut self,
        src_pointee_ty: &adapter::Type,
        dst_pointee_ty: &adapter::Type,
        pointer: &adapter::Value,
        indices: &Vec<adapter::Value>,
        address_space: usize,
        ty: &adapter::Type,
        index: usize,
    ) -> (r: EngineResult<Instruction>)
        ensures
            ({
                let full = spec_parse_gep(
                    old(self)@,
                    src_pointee_ty@,
                    dst_pointee_ty@,
                    pointer@,
                    adapter::values_view(indices@),
                    address_space as nat,
                    ty@,
                    index as nat,
                );
                &&& result_view(r) == full.0
                &&& final(self)@ == ctx_with_insts(old(self)@, full.1)
            }),
    {
        if address_space != 0 {
            return Result::Err(EngineError::NotSupportedYet(Unsupported::PointerAddressSpace));
        }
        let inst_ty = match self.typing.convert(ty) {
            Result::Err(e) => {
                return Result::Err(e);
            }
            Result::Ok(t) => t,
        };
        let is_ptr = match &inst_ty {
            Type::Pointer => true,
            _ => false,
        };
        proof {
            assert(is_ptr == (inst_ty@ is Pointer));
        }
        if !is_ptr {
            return Result::Err(
                EngineError::InvalidAssumption("GEP should return a pointer type".to_owned()),
            );
        }
        let src = match self.typing.convert(src_pointee_ty) {
            Result::Err(e) => {
                return Result::Err(e);
            }
            Result::Ok(t) => t,
        };
        let dst = match self.typing.convert(dst_pointee_ty) {
            Result::Err(e) => {
                return Result::Err(e);
            }
            Result::Ok(t) => t,
        };
        if indices.len() == 0 {
            return Result::Err(
                EngineError::InvalidAssumption("GEP contains no index".to_owned()),
            );
        }
        let offset = match self.parse_value_bv32_or_bv64(&indices[0]) {
            Result::Err(e) => {
                return Result::Err(e);
            }
            Result::Ok(v) => v,
        };
        let ghost ctx0 = old(self)@;
        let ghost vs = adapter::values_view(indices@);
        let ghost walk_start = self@;
        let ghost wfull = spec_gep_walk(
            walk_start,
            src@,
            vs.subrange(1, vs.len() as int),
            Seq::empty(),
        );
        let mut cur: &Type = &src;
        let mut indices_new: Vec<Value> = Vec::new();
        let n = indices.len();
        proof {
            assert(vs.subrange(1, vs.len() as int).subrange(
                0,
                vs.subrange(1, vs.len() as int).len() as int,
            ) =~= vs.subrange(1, vs.len() as int));
            assert(values_view(indices_new@) =~= Seq::<ValueSpec>::empty());
        }
        for i in 1..n
            invariant
                n == indices@.len(),
                vs == adapter::values_view(indices@),
                wfull == spec_gep_walk(
                    self@,
                    cur@,
                    vs.subrange(i as int, vs.len() as int),
                    values_view(indices_new@),
                ),
                self@ == ctx_with_insts(walk_start, self@.insts),
                walk_start.typing == self@.typing,
                walk_start.blocks == self@.blocks,
                walk_start.args == self@.args,
                walk_start.ret == self@.ret,
                walk_start.symbols == self@.symbols,
        {
            let ghost suffix = vs.subrange(i as int, vs.len() as int);
            proof {
                assert(suffix[0] == vs[i as int]);
                assert(vs[i as int] == indices@[i as int]@);
                assert(suffix.subrange(1, suffix.len() as int) =~= vs.subrange(
                    i + 1,
                    vs.len() as int,
                ));
            }
            match cur {
                Type::Struct { name: _, fields } => {
                    proof {
                        assert(cur@ is Struct);
                        assert(cur@->Struct_fields == types_view(fields@));
                    }
                    let idx_new = match self.parse_value(&indices[i], &Type::Bitvec { bits: 32 }) {
                        Result::Err(e) => {
                            return Result::Err(e);
                        }
                        Result::Ok(v) => v,
                    };
                    let field_offset: usize = match &idx_new {
                        Value::Constant(Constant::Bitvec { bits: _, value }) => {
                            proof {
                                assert(idx_new@ matches ValueSpec::Constant(
                                    ConstantSpec::Bitvec { .. },
                                ));
                            }
                            if *value < 0 || *value > usize::MAX as i128 {
                                return Result::Err(
                                    EngineError::InvariantViolation(
                                        "field number must be within the range of usize"
                                            .to_owned(),
                                    ),
                                );
                            }
                            *value as usize
                        }
                        _ => {
                            proof {
                                assert(!(idx_new@ matches ValueSpec::Constant(
                                    ConstantSpec::Bitvec { .. },
                                )));
                            }
                            return Result::Err(
                                EngineError::InvalidAssumption(
                                    "field number must be bv32".to_owned(),
                                ),
                            );
                        }
                    };
                    if field_offset >= fields.len() {
                        return Result::Err(
                            EngineError::InvalidAssumption("field number out of range".to_owned()),
                        );
                    }
                    proof {
                        assert(cur@->Struct_fields[field_offset as int] == fields@[
                            field_offset as int]@);
                    }
                    let ghost prev = values_view(indices_new@);
                    indices_new.push(idx_new);
                    proof {
                        assert(values_view(indices_new@) =~= prev.push(
                            values_view(indices_new@).last(),
                        ));
                    }
                    cur = &fields[field_offset];
                }
                Type::Array { element, length: _ } => {
                    let idx_new = match self.parse_value_bv32_or_bv64(&indices[i]) {
                        Result::Err(e) => {
                            return Result::Err(e);
                        }
                        Result::Ok(v) => v,
                    };
                    let ghost prev = values_view(indices_new@);
                    indices_new.push(idx_new);
                    proof {
                        assert(values_view(indices_new@) =~= prev.push(
                            values_view(indices_new@).last(),
                        ));
                    }
                    cur = element;
                }
                _ => {
                    proof {
                        assert(!(cur@ is Struct) && !(cur@ is Array));
                    }
                    return Result::Err(
                        EngineError::InvalidAssumption(
                            "GEP only applies to array and struct".to_owned(),
                        ),
                    );
                }
            }
        }
        proof {
            assert(vs.subrange(n as int, vs.len() as int).len() == 0);
        }
        if !type_eq(cur, &dst) {
            return Result::Err(
                EngineError::InvalidAssumption("GEP destination type mismatch".to_owned()),
            );
        }
        let pointer_new = match self.parse_value(pointer, &Type::Pointer) {
            Result::Err(e) => {
                return Result::Err(e);
            }
            Result::Ok(v) => v,
        };
        Result::Ok(
            Instruction::GEP {
                src_pointee_type: src,
                dst_pointee_type: dst,
                pointer: pointer_new,
                offset,
                indices: indices_new,
                result: RegisterSlot::new(index),
            },
        )
    }

    /// Translate a select.
    fn parse_ite(
        &mut self,
        cond: &adapter::Value,
        then_value: &adapter::Value,
        else_value: &adapter::Value,
        ty: &adapter::Type,
        index: usize,
    ) -> (r: EngineResult<Instruction>)
        ensures
            ({
                let full = spec_parse_ite(
                    old(self)@,
                    cond@,
                    then_value@,
                    else_value@,
                    ty@,
                    index as nat,
                );
                &&& result_view(r) == full.0
                &&& final(self)@ == ctx_with_insts(old(self)@, full.1)
            }),
    {
        let cond_new = match self.parse_value(cond, &Type::Bitvec { bits: 1 }) {
            Result::Err(e) => {
                return Result::Err(e);
            }
            Result::Ok(v) => v,
        };
        let inst_ty = match self.typing.convert(ty) {
            Result::Err(e) => {
                return Result::Err(e);
            }
            Result::Ok(t) => t,
        };
        let then_new = match self.parse_value(then_value, &inst_ty) {
            Result::Err(e) => {
                return Result::Err(e);
            }
            Result::Ok(v) => v,
        };
        let else_new = match self.parse_value(else_value, &inst_ty) {
            Result::Err(e) => {
                return Result::Err(e);
            }
            Result::Ok(v) => v,
        };
        Result::Ok(
            Instruction::ITE {
                cond: cond_new,
                then_value: then_new,
                else_value: else_new,
                result: RegisterSlot::new(index),
            },
        )
    }

    /// The position of the first phi entry carrying the label.
    fn phi_find_index(options: &Vec<(BlockLabel, Value)>, label: usize) -> (r: Option<usize>)
        ensures
            match r {
                Option::None => phi_find(phi_options_view(options@), label as nat) is None,
                Option::Some(i) => {
                    &&& i < options@.len()
                    &&& options@[i as int].0.0 == label
                    &&& phi_find(phi_options_view(options@), label as nat) == Option::Some(
                        options@[i as int].1@,
                    )
                },
            },
    {
        let ghost full = phi_options_view(options@);
        proof {
            assert(full.subrange(0, full.len() as int) =~= full);
        }
        let n = options.len();
        for i in 0..n
            invariant
                n == options@.len(),
                full == phi_options_view(options@),
                phi_find(full, label as nat) == phi_find(
                    full.subrange(i as int, full.len() as int),
                    label as nat,
                ),
        {
            let ghost suffix = full.subrange(i as int, full.len() as int);
            proof {
                assert(suffix[0] == full[i as int]);
                assert(suffix.subrange(1, suffix.len() as int) =~= full.subrange(
                    i + 1,
                    full.len() as int,
                ));
            }
            if options[i].0.0 == label {
                return Option::Some(i);
            }
        }
        proof {
            assert(full.subrange(n as int, full.len() as int).len() == 0);
        }
        Option::None
    }

    /// Translate a phi.
    #[verifier::loop_isolation(false)]
    fn parse_phi(
        &mut self,
        options: &Vec<adapter::PhiOption>,
        ty: &adapter::Type,
        index: usize,
    ) -> (r: EngineResult<Instruction>)
        ensures
            ({
                let full = spec_parse_phi(
                    old(self)@,
                    adapter::phi_options_view(options@),
                    ty@,
                    index as nat,
                );
                &&& result_view(r) == full.0
                &&& final(self)@ == ctx_with_insts(old(self)@, full.1)
            }),
    {
        let inst_ty = match self.typing.convert(ty) {
            Result::Err(e) => {
                return Result::Err(e);
            }
            Result::Ok(t) => t,
        };
        let ghost os = adapter::phi_options_view(options@);
        let ghost start = self@;
        let ghost ofull = spec_phi_options(start, inst_ty@, os, Seq::empty());
        let mut options_new: Vec<(BlockLabel, Value)> = Vec::new();
        let n = options.len();
        proof {
            assert(os.subrange(0, os.len() as int) =~= os);
            assert(phi_options_view(options_new@) =~= Seq::<(nat, ValueSpec)>::empty());
        }
        for i in 0..n
            invariant
                n == options@.len(),
                os == adapter::phi_options_view(options@),
                ofull == spec_phi_options(
                    self@,
                    inst_ty@,
                    os.subrange(i as int, os.len() as int),
                    phi_options_view(options_new@),
                ),
                self@ == ctx_with_insts(start, self@.insts),
        {
            let ghost suffix = os.subrange(i as int, os.len() as int);
            proof {
                assert(suffix[0] == os[i as int]);
                assert(os[i as int] == options@[i as int]@);
                assert(suffix.subrange(1, suffix.len() as int) =~= os.subrange(
                    i + 1,
                    os.len() as int,
                ));
            }
            let opt = &options[i];
            if !self.has_block(opt.block) {
                return Result::Err(
                    EngineError::InvariantViolation("unknown incoming edge into phi node".to_owned()),
                );
            }
            let value_new = match self.parse_value(&opt.value, &inst_ty) {
                Result::Err(e) => {
                    return Result::Err(e);
                }
                Result::Ok(v) => v,
            };
            match Self::phi_find_index(&options_new, opt.block) {
                Option::None => {
                    let ghost prev = phi_options_view(options_new@);
                    options_new.push((BlockLabel::new(opt.block), value_new));
                    proof {
                        assert(phi_options_view(options_new@) =~= prev.push(
                            (opt.block as nat, phi_options_view(options_new@).last().1),
                        ));
                    }
                }
                Option::Some(j) => {
                    if !value_eq(&options_new[j].1, &value_new) {
                        return Result::Err(
                            EngineError::InvariantViolation(
                                "duplicated edges into phi node with different values".to_owned(),
                            ),
                        );
                    }
                }
            }
        }
        proof {
            assert(os.subrange(n as int, os.len() as int).len() == 0);
        }
        Result::Ok(
            Instruction::Phi {
                ty: inst_ty,
                options: options_new,
                result: RegisterSlot::new(index),
            },
        )
    }

    /// Translate an aggregate read.
    fn parse_get_value(
        &mut self,
        from_ty: &adapter::Type,
        aggregate: &adapter::Value,
        indices: &Vec<usize>,
        ty: &adapter::Type,
        index: usize,
    ) -> (r: EngineResult<Instruction>)
        ensures
            ({
                let full = spec_parse_get_value(
                    old(self)@,
                    from_ty@,
                    aggregate@,
                    index_list_view(indices@),
                    ty@,
                    index as nat,
                );
                &&& result_view(r) == full.0
                &&& final(self)@ == ctx_with_insts(old(self)@, full.1)
            }),
    {
        let src = match self.typing.convert(from_ty) {
            Result::Err(e) => {
                return Result::Err(e);
            }
            Result::Ok(t) => t,
        };
        let dst = match self.typing.convert(ty) {
            Result::Err(e) => {
                return Result::Err(e);
            }
            Result::Ok(t) => t,
        };
        let cur = match walk_index_chain(&src, indices) {
            Result::Err(e) => {
                return Result::Err(e);
            }
            Result::Ok(t) => t,
        };
        if !type_eq(&cur, &dst) {
            return Result::Err(
                EngineError::InvalidAssumption("GetValue destination type mismatch".to_owned()),
            );
        }
        let aggregate_new = match self.parse_value(aggregate, &src) {
            Result::Err(e) => {
                return Result::Err(e);
            }
            Result::Ok(v) => v,
        };
        let mut idx_copy: Vec<usize> = Vec::new();
        let n = indices.len();
        for i in 0..n
            invariant
                n == indices@.len(),
                idx_copy@.len() == i,
                forall|j: int| 0 <= j < i ==> idx_copy@[j] == indices@[j],
        {
            idx_copy.push(indices[i]);
        }
        proof {
            assert(index_list_view(idx_copy@) =~= index_list_view(indices@));
        }
        Result::Ok(
            Instruction::GetValue {
                src_ty: src,
                dst_ty: dst,
                aggregate: aggregate_new,
                indices: idx_copy,
                result: RegisterSlot::new(index),
            },
        )
    }

    /// Translate an aggregate write.
    fn parse_set_value(
        &mut self,
        aggregate: &adapter::Value,
        value: &adapter::Value,
        indices: &Vec<usize>,
        ty: &adapter::Type,
        index: usize,
    ) -> (r: EngineResult<Instruction>)
        ensures
            ({
                let full = spec_parse_set_value(
                    old(self)@,
                    aggregate@,
                    value@,
                    index_list_view(indices@),
                    ty@,
                    index as nat,
                );
                &&& result_view(r) == full.0
                &&& final(self)@ == ctx_with_insts(old(self)@, full.1)
            }),
    {
        let src = match self.typing.convert(ty) {
            Result::Err(e) => {
                return Result::Err(e);
            }
            Result::Ok(t) => t,
        };
        let dst = match walk_index_chain(&src, indices) {
            Result::Err(e) => {
                return Result::Err(e);
            }
            Result::Ok(t) => t,
        };
        let aggregate_new = match self.parse_value(aggregate, &src) {
            Result::Err(e) => {
                return Result::Err(e);
            }
            Result::Ok(v) => v,
        };
        let value_new = match self.parse_value(value, &dst) {
            Result::Err(e) => {
                return Result::Err(e);
            }
            Result::Ok(v) => v,
        };
        let mut idx_copy: Vec<usize> = Vec::new();
        let n = indices.len();
        for i in 0..n
            invariant
                n == indices@.len(),
                idx_copy@.len() == i,
                forall|j: int| 0 <= j < i ==> idx_copy@[j] == indices@[j],
        {
            idx_copy.push(indices[i]);
        }
        proof {
            assert(index_list_view(idx_copy@) =~= index_list_view(indices@));
        }
        Result::Ok(
            Instruction::SetValue {
                src_ty: src,
                dst_ty: dst,
                aggregate: aggregate_new,
                value: value_new,
                indices: idx_copy,
                result: RegisterSlot::new(index),
            },
        )
    }
}


/// What translating one non-terminal instruction yields, by kind: the closed
/// dispatch over every adapter instruction shape.  Terminator shapes standing
/// in a block body are an invariant violation.
pub open spec fn spec_parse_instruction(ctx: ContextSpec, inst: adapter::InstructionSpec) -> (
    Result<InstructionSpec, ErrorSpec>,
    Seq<(nat, Option<TypeSpec>)>,
) {
    match inst.repr {
        adapter::InstSpec::Alloca { allocated_type, size, address_space } => spec_parse_alloca(
            ctx,
            allocated_type,
            size,
            address_space,
            inst.ty,
            inst.index,
        ),
        adapter::InstSpec::Load { pointee_type, pointer, ordering, address_space } => {
            spec_parse_load(ctx, pointee_type, pointer, ordering, address_space, inst.ty, inst.index)
        }
        adapter::InstSpec::Store { pointee_type, pointer, value, ordering, address_space } => {
            spec_parse_store(ctx, pointee_type, pointer, value, ordering, address_space, inst.ty)
        }
        adapter::InstSpec::VAArg => (
            Result::Err(ErrorSpec::NotSupportedYet(Unsupported::VariadicArguments)),
            ctx.insts,
        ),
        adapter::InstSpec::Intrinsic { callee, target_type, args } => spec_parse_call(
            ctx,
            callee,
            target_type,
            args,
            inst.ty,
            inst.index,
            true,
        ),
        adapter::InstSpec::CallDirect { callee, target_type, args } => spec_parse_call(
            ctx,
            callee,
            target_type,
            args,
            inst.ty,
            inst.index,
            true,
        ),
        adapter::InstSpec::CallIndirect { callee, target_type, args } => spec_parse_call(
            ctx,
            callee,
            target_type,
            args,
            inst.ty,
            inst.index,
            false,
        ),
        adapter::InstSpec::Asm { .. } => (
            Result::Err(ErrorSpec::NotSupportedYet(Unsupported::InlineAssembly)),
            ctx.insts,
        ),
        adapter::InstSpec::Unary { opcode, operand } => {
            if opcode == "fneg"@ {
                (Result::Err(ErrorSpec::NotSupportedYet(Unsupported::FloatingPoint)), ctx.insts)
            } else {
                (
                    Result::Err(
                        ErrorSpec::InvalidAssumption("unexpected unary opcode: "@ + opcode),
                    ),
                    ctx.insts,
                )
            }
        }
        adapter::InstSpec::Binary { opcode, lhs, rhs } => spec_parse_binary(
            ctx,
            opcode,
            lhs,
            rhs,
            inst.ty,
            inst.index,
        ),
        adapter::InstSpec::Compare { predicate, operand_type, lhs, rhs } => spec_parse_compare(
            ctx,
            predicate,
            operand_type,
            lhs,
            rhs,
            inst.ty,
            inst.index,
        ),
        adapter::InstSpec::Cast {
            opcode,
            src_ty,
            dst_ty,
            src_address_space,
            dst_address_space,
            operand,
        } => spec_parse_cast(
            ctx,
            opcode,
            src_ty,
            dst_ty,
            src_address_space,
            dst_address_space,
            operand,
            inst.ty,
            inst.index,
        ),
        adapter::InstSpec::Freeze { operand } => spec_parse_freeze(ctx, operand, inst.ty),
        adapter::InstSpec::GEP {
            src_pointee_ty,
            dst_pointee_ty,
            pointer,
            indices,
            address_space,
        } => spec_parse_gep(
            ctx,
            src_pointee_ty,
            dst_pointee_ty,
            pointer,
            indices,
            address_space,
            inst.ty,
            inst.index,
        ),
        adapter::InstSpec::ITE { cond, then_value, else_value } => spec_parse_ite(
            ctx,
            cond,
            then_value,
            else_value,
            inst.ty,
            inst.index,
        ),
        adapter::InstSpec::Phi { options } => spec_parse_phi(ctx, options, inst.ty, inst.index),
        adapter::InstSpec::GetValue { from_ty, aggregate, indices } => spec_parse_get_value(
            ctx,
            from_ty,
            aggregate,
            indices,
            inst.ty,
            inst.index,
        ),
        adapter::InstSpec::SetValue { aggregate, value, indices } => spec_parse_set_value(
            ctx,
            aggregate,
            value,
            indices,
            inst.ty,
            inst.index,
        ),
        adapter::InstSpec::GetElement => (
            Result::Err(ErrorSpec::NotSupportedYet(Unsupported::Vectorization)),
            ctx.insts,
        ),
        adapter::InstSpec::SetElement => (
            Result::Err(ErrorSpec::NotSupportedYet(Unsupported::Vectorization)),
            ctx.insts,
        ),
        adapter::InstSpec::ShuffleVector => (
            Result::Err(ErrorSpec::NotSupportedYet(Unsupported::Vectorization)),
            ctx.insts,
        ),
        adapter::InstSpec::Fence => (
            Result::Err(ErrorSpec::NotSupportedYet(Unsupported::AtomicInstruction)),
            ctx.insts,
        ),
        adapter::InstSpec::AtomicCmpXchg => (
            Result::Err(ErrorSpec::NotSupportedYet(Unsupported::AtomicInstruction)),
            ctx.insts,
        ),
        adapter::InstSpec::AtomicRMW => (
            Result::Err(ErrorSpec::NotSupportedYet(Unsupported::AtomicInstruction)),
            ctx.insts,
        ),
        adapter::InstSpec::Return { .. } => (
            Result::Err(
                ErrorSpec::InvariantViolation(
                    "malformed block with terminator instruction in the body"@,
                ),
            ),
            ctx.insts,
        ),
        adapter::InstSpec::Branch { .. } => (
            Result::Err(
                ErrorSpec::InvariantViolation(
                    "malformed block with terminator instruction in the body"@,
                ),
            ),
            ctx.insts,
        ),
        adapter::InstSpec::Switch { .. } => (
            Result::Err(
                ErrorSpec::InvariantViolation(
                    "malformed block with terminator instruction in the body"@,
                ),
            ),
            ctx.insts,
        ),
        adapter::InstSpec::IndirectJump => (
            Result::Err(
                ErrorSpec::InvariantViolation(
                    "malformed block with terminator instruction in the body"@,
                ),
            ),
            ctx.insts,
        ),
        adapter::InstSpec::Unreachable => (
            Result::Err(
                ErrorSpec::InvariantViolation(
                    "malformed block with terminator instruction in the body"@,
                ),
            ),
            ctx.insts,
        ),
    }
}

impl<'a> Context<'a> {
    /// Convert one non-terminal instruction.
    #[verifier::rlimit(60)]
    pub fn parse_instruction(&mut self, inst: &adapter::Instruction) -> (r: EngineResult<
        Instruction,
    >)
        ensures
            ({
                let full = spec_parse_instruction(old(self)@, inst@);
                &&& result_view(r) == full.0
                &&& final(self)@ == ctx_with_insts(old(self)@, full.1)
            }),
    {
        let ty = &inst.ty;
        let index = inst.index;
        match &inst.repr {
            adapter::Inst::Alloca { allocated_type, size, address_space } => self.parse_alloca(
                allocated_type,
                size,
                *address_space,
                ty,
                index,
            ),
            adapter::Inst::Load { pointee_type, pointer, ordering, address_space } => self
                .parse_load(pointee_type, pointer, ordering, *address_space, ty, index),
            adapter::Inst::Store { pointee_type, pointer, value, ordering, address_space } => self
                .parse_store(pointee_type, pointer, value, ordering, *address_space, ty),
            adapter::Inst::VAArg => Result::Err(
                EngineError::NotSupportedYet(Unsupported::VariadicArguments),
            ),
            adapter::Inst::Intrinsic { callee, target_type, args } => self.parse_call(
                callee,
                target_type,
                args,
                ty,
                index,
                true,
            ),
            adapter::Inst::CallDirect { callee, target_type, args } => self.parse_call(
                callee,
                target_type,
                args,
                ty,
                index,
                true,
            ),
            adapter::Inst::CallIndirect { callee, target_type, args } => self.parse_call(
                callee,
                target_type,
                args,
                ty,
                index,
                false,
            ),
            adapter::Inst::Asm { .. } => Result::Err(
                EngineError::NotSupportedYet(Unsupported::InlineAssembly),
            ),
            adapter::Inst::Unary { opcode, operand: _ } => {
                if str_eq(opcode.as_str(), "fneg") {
                    Result::Err(EngineError::NotSupportedYet(Unsupported::FloatingPoint))
                } else {
                    let mut msg = "unexpected unary opcode: ".to_owned();
                    msg.append(opcode.as_str());
                    Result::Err(EngineError::InvalidAssumption(msg))
                }
            }
            adapter::Inst::Binary { opcode, lhs, rhs } => self.parse_binary(
                opcode,
                lhs,
                rhs,
                ty,
                index,
            ),
            adapter::Inst::Compare { predicate, operand_type, lhs, rhs } => self.parse_compare(
                predicate,
                operand_type,
                lhs,
                rhs,
                ty,
                index,
            ),
            adapter::Inst::Cast {
                opcode,
                src_ty,
                dst_ty,
                src_address_space,
                dst_address_space,
                operand,
            } => self.parse_cast(
                opcode,
                src_ty,
                dst_ty,
                src_address_space,
                dst_address_space,
                operand,
                ty,
                index,
            ),
            adapter::Inst::Freeze { operand } => self.parse_freeze(operand, ty),
            adapter::Inst::GEP {
                src_pointee_ty,
                dst_pointee_ty,
                pointer,
                indices,
                address_space,
            } => self.parse_gep(
                src_pointee_ty,
                dst_pointee_ty,
                pointer,
                indices,
                *address_space,
                ty,
                index,
            ),
            adapter::Inst::ITE { cond, then_value, else_value } => self.parse_ite(
                cond,
                then_value,
                else_value,
                ty,
                index,
            ),
            adapter::Inst::Phi { options } => self.parse_phi(options, ty, index),
            adapter::Inst::GetValue { from_ty, aggregate, indices } => self.parse_get_value(
                from_ty,
                aggregate,
                indices,
                ty,
                index,
            ),
            adapter::Inst::SetValue { aggregate, value, indices } => self.parse_set_value(
                aggregate,
                value,
                indices,
                ty,
                index,
            ),
            adapter::Inst::GetElement => Result::Err(
                EngineError::NotSupportedYet(Unsupported::Vectorization),
            ),
            adapter::Inst::SetElement => Result::Err(
                EngineError::NotSupportedYet(Unsupported::Vectorization),
            ),
            adapter::Inst::ShuffleVector => Result::Err(
                EngineError::NotSupportedYet(Unsupported::Vectorization),
            ),
            adapter::Inst::Fence => Result::Err(
                EngineError::NotSupportedYet(Unsupported::AtomicInstruction),
            ),
            adapter::Inst::AtomicCmpXchg => Result::Err(
                EngineError::NotSupportedYet(Unsupported::AtomicInstruction),
            ),
            adapter::Inst::AtomicRMW => Result::Err(
                EngineError::NotSupportedYet(Unsupported::AtomicInstruction),
            ),
            adapter::Inst::Return { .. } => Result::Err(
                EngineError::InvariantViolation(
                    "malformed block with terminator instruction in the body".to_owned(),
                ),
            ),
            adapter::Inst::Branch { .. } => Result::Err(
                EngineError::InvariantViolation(
                    "malformed block with terminator instruction in the body".to_owned(),
                ),
            ),
            adapter::Inst::Switch { .. } => Result::Err(
                EngineError::InvariantViolation(
                    "malformed block with terminator instruction in the body".to_owned(),
                ),
            ),
            adapter::Inst::IndirectJump => Result::Err(
                EngineError::InvariantViolation(
                    "malformed block with terminator instruction in the body".to_owned(),
                ),
            ),
            adapter::Inst::Unreachable => Result::Err(
                EngineError::InvariantViolation(
                    "malformed block with terminator instruction in the body".to_owned(),
                ),
            ),
        }
    }
}


/// The switch-case mapping with one more case: a duplicate case label takes
/// the later target (last write wins), in place; a fresh label appends.
pub open spec fn switch_insert(s: Seq<(nat, nat)>, k: nat, v: nat) -> Seq<(nat, nat)>
    decreases s.len(),
{
    if s.len() == 0 {
        seq![(k, v)]
    } else if s[0].0 == k {
        seq![(k, v)] + s.subrange(1, s.len() as int)
    } else {
        seq![s[0]] + switch_insert(s.subrange(1, s.len() as int), k, v)
    }
}

/// Where no entry carries the key, inserting appends.
pub proof fn lemma_switch_insert_absent(s: Seq<(nat, nat)>, k: nat, v: nat)
    requires
        forall|j: int| 0 <= j < s.len() ==> s[j].0 != k,
    ensures
        switch_insert(s, k, v) == s.push((k, v)),
    decreases s.len(),
{
    if s.len() == 0 {
        assert(seq![(k, v)] =~= s.push((k, v)));
    } else {
        let rest = s.subrange(1, s.len() as int);
        assert(forall|j: int| 0 <= j < rest.len() ==> rest[j] == s[j + 1]);
        lemma_switch_insert_absent(rest, k, v);
        assert(seq![s[0]] + rest.push((k, v)) =~= s.push((k, v)));
    }
}

/// Where the first entry carrying the key stands at a known position,
/// inserting updates that position.
pub proof fn lemma_switch_insert_at(s: Seq<(nat, nat)>, i: int, k: nat, v: nat)
    requires
        0 <= i < s.len(),
        s[i].0 == k,
        forall|j: int| 0 <= j < i ==> s[j].0 != k,
    ensures
        switch_insert(s, k, v) == s.update(i, (k, v)),
    decreases s.len(),
{
    let rest = s.subrange(1, s.len() as int);
    if i == 0 {
        assert(seq![(k, v)] + rest =~= s.update(0, (k, v)));
    } else {
        assert(forall|j: int| 0 <= j < rest.len() ==> rest[j] == s[j + 1]);
        lemma_switch_insert_at(rest, i - 1, k, v);
        assert(seq![s[0]] + rest.update(i - 1, (k, v)) =~= s.update(i, (k, v)));
    }
}

/// Collecting the cases of a switch into `acc`: each target block must be
/// known, and each case value must convert, under the condition type, to a
/// bitvec literal representable in 64 bits.
pub open spec fn spec_switch_cases(
    ctx: ContextSpec,
    cond_ty: TypeSpec,
    cases: Seq<adapter::SwitchCaseSpec>,
    acc: Seq<(nat, nat)>,
) -> Result<Seq<(nat, nat)>, ErrorSpec>
    decreases cases.len(),
{
    if cases.len() == 0 {
        Result::Ok(acc)
    } else {
        let c = cases[0];
        if !ctx.blocks.contains(c.block) {
            Result::Err(ErrorSpec::InvalidAssumption("switch casing into an invalid block"@))
        } else {
            match spec_convert_constant(ctx.typing, ctx.symbols, c.value, cond_ty) {
                Result::Err(e) => Result::Err(e),
                Result::Ok(cc) => match cc {
                    ConstantSpec::Bitvec { bits, value } => {
                        if value < 0 || value > u64::MAX as int {
                            Result::Err(
                                ErrorSpec::InvalidAssumption(
                                    "switch casing label larger than u64"@,
                                ),
                            )
                        } else {
                            spec_switch_cases(
                                ctx,
                                cond_ty,
                                cases.subrange(1, cases.len() as int),
                                switch_insert(acc, value as nat, c.block),
                            )
                        }
                    }
                    _ => Result::Err(
                        ErrorSpec::InvariantViolation("switch case is not a constant bitvec"@),
                    ),
                },
            }
        }
    }
}

/// What translating one block-final instruction yields: a terminator, or an
/// enumerated rejection.  Every terminator has the void type, and every
/// non-terminator shape standing here is an invariant violation.
pub open spec fn spec_parse_terminator(ctx: ContextSpec, inst: adapter::InstructionSpec) -> (
    Result<TerminatorSpec, ErrorSpec>,
    Seq<(nat, Option<TypeSpec>)>,
) {
    if !(inst.ty is Void) {
        (
            Result::Err(
                ErrorSpec::InvalidAssumption("all terminator instructions must have void type"@),
            ),
            ctx.insts,
        )
    } else {
        match inst.repr {
            adapter::InstSpec::Return { value } => match (value, ctx.ret) {
                (Option::None, Option::None) => (
                    Result::Ok(TerminatorSpec::Return { val: Option::None }),
                    ctx.insts,
                ),
                (Option::Some(v), Option::Some(t)) => {
                    let step = spec_parse_value(ctx, v, t);
                    match step.0 {
                        Result::Err(e) => (Result::Err(e), step.1),
                        Result::Ok(c) => (
                            Result::Ok(TerminatorSpec::Return { val: Option::Some(c) }),
                            step.1,
                        ),
                    }
                }
                _ => (
                    Result::Err(ErrorSpec::InvariantViolation("return type mismatch"@)),
                    ctx.insts,
                ),
            },
            adapter::InstSpec::Branch { cond, targets } => match cond {
                Option::None => {
                    if targets.len() != 1 {
                        (
                            Result::Err(
                                ErrorSpec::InvalidAssumption(
                                    "unconditional branch should have exactly one target"@,
                                ),
                            ),
                            ctx.insts,
                        )
                    } else if !ctx.blocks.contains(targets[0]) {
                        (
                            Result::Err(
                                ErrorSpec::InvalidAssumption(
                                    "unconditional branch to unknown target"@,
                                ),
                            ),
                            ctx.insts,
                        )
                    } else {
                        (Result::Ok(TerminatorSpec::Goto { target: targets[0] }), ctx.insts)
                    }
                }
                Option::Some(val) => {
                    let step = spec_parse_value(ctx, val, TypeSpec::Bitvec { bits: 1 as nat });
                    match step.0 {
                        Result::Err(e) => (Result::Err(e), step.1),
                        Result::Ok(c) => {
                            if targets.len() != 2 {
                                (
                                    Result::Err(
                                        ErrorSpec::InvalidAssumption(
                                            "conditional branch should have exactly two targets"@,
                                        ),
                                    ),
                                    step.1,
                                )
                            } else if !ctx.blocks.contains(targets[0]) {
                                (
                                    Result::Err(
                                        ErrorSpec::InvalidAssumption(
                                            "conditional branch to unknown then target"@,
                                        ),
                                    ),
                                    step.1,
                                )
                            } else if !ctx.blocks.contains(targets[1]) {
                                (
                                    Result::Err(
                                        ErrorSpec::InvalidAssumption(
                                            "conditional branch to unknown else target"@,
                                        ),
                                    ),
                                    step.1,
                                )
                            } else {
                                (
                                    Result::Ok(
                                        TerminatorSpec::Branch {
                                            cond: c,
                                            then_case: targets[0],
                                            else_case: targets[1],
                                        },
                                    ),
                                    step.1,
                                )
                            }
                        }
                    }
                }
            },
            adapter::InstSpec::Switch { cond, cond_ty, cases, default } => {
                match spec_convert_type(ctx.typing, cond_ty) {
                    Result::Err(e) => (Result::Err(e), ctx.insts),
                    Result::Ok(cond_ty_new) => {
                        if !(cond_ty_new is Bitvec) {
                            (
                                Result::Err(
                                    ErrorSpec::InvalidAssumption("switch condition must be bitvec"@),
                                ),
                                ctx.insts,
                            )
                        } else {
                            let step = spec_parse_value(ctx, cond, cond_ty_new);
                            match step.0 {
                                Result::Err(e) => (Result::Err(e), step.1),
                                Result::Ok(c) => {
                                    match spec_switch_cases(
                                        ctx_with_insts(ctx, step.1),
                                        cond_ty_new,
                                        cases,
                                        Seq::empty(),
                                    ) {
                                        Result::Err(e) => (Result::Err(e), step.1),
                                        Result::Ok(mapping) => match default {
                                            Option::None => (
                                                Result::Ok(
                                                    TerminatorSpec::Switch {
                                                        cond: c,
                                                        cases: mapping,
                                                        default: Option::None,
                                                    },
                                                ),
                                                step.1,
                                            ),
                                            Option::Some(label) => {
                                                if !ctx.blocks.contains(label) {
                                                    (
                                                        Result::Err(
                                                            ErrorSpec::InvalidAssumption(
                                                                "switch default casing into an invalid block"@,
                                                            ),
                                                        ),
                                                        step.1,
                                                    )
                                                } else {
                                                    (
                                                        Result::Ok(
                                                            TerminatorSpec::Switch {
                                                                cond: c,
                                                                cases: mapping,
                                                                default: Option::Some(label),
                                                            },
                                                        ),
                                                        step.1,
                                                    )
                                                }
                                            }
                                        },
                                    }
                                }
                            }
                        }
                    }
                }
            }
            adapter::InstSpec::IndirectJump => (
                Result::Err(ErrorSpec::NotSupportedYet(Unsupported::IndirectJump)),
                ctx.insts,
            ),
            adapter::InstSpec::Unreachable => (
                Result::Ok(TerminatorSpec::Unreachable),
                ctx.insts,
            ),
            _ => (
                Result::Err(
                    ErrorSpec::InvariantViolation(
                        "malformed block with non-terminator instruction"@,
                    ),
                ),
                ctx.insts,
            ),
        }
    }
}

impl<'a> Context<'a> {
    /// The position of the first switch case carrying the key.
    fn switch_find_index(cases: &Vec<(u64, BlockLabel)>, key: u64) -> (r: Option<usize>)
        ensures
            match r {
                Option::None => forall|j: int|
                    0 <= j < cases@.len() ==> switch_cases_view(cases@)[j].0 != key as nat,
                Option::Some(i) => {
                    &&& i < cases@.len()
                    &&& switch_cases_view(cases@)[i as int].0 == key as nat
                    &&& forall|j: int|
                        0 <= j < i ==> switch_cases_view(cases@)[j].0 != key as nat
                },
            },
    {
        let n = cases.len();
        for i in 0..n
            invariant
                n == cases@.len(),
                forall|j: int| 0 <= j < i ==> switch_cases_view(cases@)[j].0 != key as nat,
        {
            if cases[i].0 == key {
                assert(switch_cases_view(cases@)[i as int].0 == key as nat);
                return Option::Some(i);
            }
            assert(switch_cases_view(cases@)[i as int].0 != key as nat);
        }
        Option::None
    }

    /// Convert one block-final instruction into a terminator.
    #[verifier::loop_isolation(false)]
    #[verifier::rlimit(60)]
    pub fn parse_terminator(&mut self, inst: &adapter::Instruction) -> (r: EngineResult<
        Terminator,
    >)
        ensures
            ({
                let full = spec_parse_terminator(old(self)@, inst@);
                &&& result_view(r) == full.0
                &&& final(self)@ == ctx_with_insts(old(self)@, full.1)
            }),
    {
        let is_void = match &inst.ty {
            adapter::Type::Void => true,
            _ => false,
        };
        proof {
            assert(is_void == (inst@.ty is Void));
        }
        if !is_void {
            return Result::Err(
                EngineError::InvalidAssumption(
                    "all terminator instructions must have void type".to_owned(),
                ),
            );
        }
        match &inst.repr {
            adapter::Inst::Return { value } => match value {
                Option::None => match &self.ret {
                    Option::None => Result::Ok(Terminator::Return { val: Option::None }),
                    Option::Some(t) => Result::Err(
                        EngineError::InvariantViolation("return type mismatch".to_owned()),
                    ),
                },
                Option::Some(val) => {
                    let ret_ty = match &self.ret {
                        Option::None => {
                            return Result::Err(
                                EngineError::InvariantViolation("return type mismatch".to_owned()),
                            );
                        }
                        Option::Some(t) => type_dup(t),
                    };
                    match self.parse_value(val, &ret_ty) {
                        Result::Err(e) => Result::Err(e),
                        Result::Ok(converted) => Result::Ok(
                            Terminator::Return { val: Option::Some(converted) },
                        ),
                    }
                }
            },
            adapter::Inst::Branch { cond, targets } => match cond {
                Option::None => {
                    if targets.len() != 1 {
                        return Result::Err(
                            EngineError::InvalidAssumption(
                                "unconditional branch should have exactly one target".to_owned(),
                            ),
                        );
                    }
                    let target = targets[0];
                    if !self.has_block(target) {
                        return Result::Err(
                            EngineError::InvalidAssumption(
                                "unconditional branch to unknown target".to_owned(),
                            ),
                        );
                    }
                    Result::Ok(Terminator::Goto { target: BlockLabel::new(target) })
                }
                Option::Some(val) => {
                    let cond_new = match self.parse_value(val, &Type::Bitvec { bits: 1 }) {
                        Result::Err(e) => {
                            return Result::Err(e);
                        }
                        Result::Ok(v) => v,
                    };
                    if targets.len() != 2 {
                        return Result::Err(
                            EngineError::InvalidAssumption(
                                "conditional branch should have exactly two targets".to_owned(),
                            ),
                        );
                    }
                    let target_then = targets[0];
                    if !self.has_block(target_then) {
                        return Result::Err(
                            EngineError::InvalidAssumption(
                                "conditional branch to unknown then target".to_owned(),
                            ),
                        );
                    }
                    let target_else = targets[1];
                    if !self.has_block(target_else) {
                        return Result::Err(
                            EngineError::InvalidAssumption(
                                "conditional branch to unknown else target".to_owned(),
                            ),
                        );
                    }
                    Result::Ok(
                        Terminator::Branch {
                            cond: cond_new,
                            then_case: BlockLabel::new(target_then),
                            else_case: BlockLabel::new(target_else),
                        },
                    )
                }
            },
            adapter::Inst::Switch { cond, cond_ty, cases, default } => {
                let cond_ty_new = match self.typing.convert(cond_ty) {
                    Result::Err(e) => {
                        return Result::Err(e);
                    }
                    Result::Ok(t) => t,
                };
                let is_bv = match &cond_ty_new {
                    Type::Bitvec { .. } => true,
                    _ => false,
                };
                proof {
                    assert(is_bv == (cond_ty_new@ is Bitvec));
                }
                if !is_bv {
                    return Result::Err(
                        EngineError::InvalidAssumption("switch condition must be bitvec".to_owned()),
                    );
                }
                let cond_new = match self.parse_value(cond, &cond_ty_new) {
                    Result::Err(e) => {
                        return Result::Err(e);
                    }
                    Result::Ok(v) => v,
                };
                let ghost cs = adapter::switch_cases_view(cases@);
                let ghost cfull = spec_switch_cases(self@, cond_ty_new@, cs, Seq::empty());
                let mut mapping: Vec<(u64, BlockLabel)> = Vec::new();
                let n = cases.len();
                proof {
                    assert(cs.subrange(0, cs.len() as int) =~= cs);
                    assert(switch_cases_view(mapping@) =~= Seq::<(nat, nat)>::empty());
                }
                for i in 0..n
                    invariant
                        n == cases@.len(),
                        cfull == spec_switch_cases(
                            self@,
                            cond_ty_new@,
                            cs.subrange(i as int, cs.len() as int),
                            switch_cases_view(mapping@),
                        ),
                {
                    let ghost suffix = cs.subrange(i as int, cs.len() as int);
                    proof {
                        assert(suffix[0] == cs[i as int]);
                        assert(cs[i as int] == cases@[i as int]@);
                        assert(suffix.subrange(1, suffix.len() as int) =~= cs.subrange(
                            i + 1,
                            cs.len() as int,
                        ));
                    }
                    let case = &cases[i];
                    if !self.has_block(case.block) {
                        return Result::Err(
                            EngineError::InvalidAssumption(
                                "switch casing into an invalid block".to_owned(),
                            ),
                        );
                    }
                    let case_val = match Constant::convert(
                        &case.value,
                        &cond_ty_new,
                        self.typing,
                        self.symbols,
                    ) {
                        Result::Err(e) => {
                            return Result::Err(e);
                        }
                        Result::Ok(c) => c,
                    };
                    let label_val: u64 = match &case_val {
                        Constant::Bitvec { bits: _, value } => {
                            proof {
                                assert(case_val@ matches ConstantSpec::Bitvec { .. });
                            }
                            if *value < 0 || *value > u64::MAX as i128 {
                                return Result::Err(
                                    EngineError::InvalidAssumption(
                                        "switch casing label larger than u64".to_owned(),
                                    ),
                                );
                            }
                            *value as u64
                        }
                        _ => {
                            proof {
                                assert(!(case_val@ matches ConstantSpec::Bitvec { .. }));
                            }
                            return Result::Err(
                                EngineError::InvariantViolation(
                                    "switch case is not a constant bitvec".to_owned(),
                                ),
                            );
                        }
                    };
                    let ghost before = switch_cases_view(mapping@);
                    match Self::switch_find_index(&mapping, label_val) {
                        Option::None => {
                            proof {
                                lemma_switch_insert_absent(
                                    before,
                                    label_val as nat,
                                    case.block as nat,
                                );
                            }
                            mapping.push((label_val, BlockLabel::new(case.block)));
                            proof {
                                assert(switch_cases_view(mapping@) =~= before.push(
                                    (label_val as nat, case.block as nat),
                                ));
                            }
                        }
                        Option::Some(j) => {
                            proof {
                                lemma_switch_insert_at(
                                    before,
                                    j as int,
                                    label_val as nat,
                                    case.block as nat,
                                );
                            }
                            mapping[j] = (label_val, BlockLabel::new(case.block));
                            proof {
                                assert(switch_cases_view(mapping@) =~= before.update(
                                    j as int,
                                    (label_val as nat, case.block as nat),
                                ));
                            }
                        }
                    }
                }
                proof {
                    assert(cs.subrange(n as int, cs.len() as int).len() == 0);
                }
                let default_new = match default {
                    Option::None => Option::None,
                    Option::Some(label) => {
                        if !self.has_block(*label) {
                            return Result::Err(
                                EngineError::InvalidAssumption(
                                    "switch default casing into an invalid block".to_owned(),
                                ),
                            );
                        }
                        Option::Some(BlockLabel::new(*label))
                    }
                };
                Result::Ok(
                    Terminator::Switch { cond: cond_new, cases: mapping, default: default_new },
                )
            }
            adapter::Inst::IndirectJump => Result::Err(
                EngineError::NotSupportedYet(Unsupported::IndirectJump),
            ),
            adapter::Inst::Unreachable => Result::Ok(Terminator::Unreachable),
            _ => {
                proof {
                    assert(match inst@.repr {
                        adapter::InstSpec::Return { .. } => false,
                        adapter::InstSpec::Branch { .. } => false,
                        adapter::InstSpec::Switch { .. } => false,
                        adapter::InstSpec::IndirectJump => false,
                        adapter::InstSpec::Unreachable => false,
                        _ => true,
                    });
                }
                Result::Err(
                    EngineError::InvariantViolation(
                        "malformed block with non-terminator instruction".to_owned(),
                    ),
                )
            }
        }
    }
}


} // verus!
