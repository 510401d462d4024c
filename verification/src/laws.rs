//! The laws of the translation, proved over the same specification functions
//! that the executable converters are verified against: completeness on fully
//! supported modules, stability of register typing, rejection of atomic
//! memory orderings with no partial output, the demands on defined functions,
//! and the collapse rule for duplicate phi edges.

use vstd::prelude::*;

use crate::adapter;
use crate::cfg::{spec_build_cfg, spec_scan_blocks, spec_translate_blocks, spec_translate_insts};
use crate::context::{ContextSpec, ctx_with_insts, lemma_table_get_set, spec_parse_value,
    table_get};
use crate::error::{ErrorSpec, Unsupported};
use crate::function::spec_convert_function;
use crate::spec_analyze;
use crate::spec_collect_symbols;
use crate::spec_convert_functions;
use crate::translate::{phi_find, spec_parse_instruction, spec_parse_terminator,
    spec_phi_options};
use crate::typing::{StructDefSpec, TypeSpec, spec_build_registry, spec_convert_type};
use crate::value::ValueSpec;

verus! {

/// Converting a function list on which every single conversion succeeds
/// succeeds as a whole, keeps the order, and adds one output per input.
#[verifier::rlimit(100)]
proof fn lemma_convert_functions_all_ok(
    reg: Seq<StructDefSpec>,
    syms: Seq<Seq<char>>,
    funcs: Seq<adapter::FunctionSpec>,
    acc: Seq<crate::function::FunctionSpec>,
)
    requires
        forall|i: int|
            0 <= i < funcs.len() ==> #[trigger] spec_convert_function(reg, syms, funcs[i]) is Ok,
    ensures
        spec_convert_functions(reg, syms, funcs, acc) is Ok,
        spec_convert_functions(reg, syms, funcs, acc)->Ok_0.len() == acc.len() + funcs.len(),
        forall|k: int|
            0 <= k < acc.len() ==> #[trigger] spec_convert_functions(reg, syms, funcs, acc)->Ok_0[k]
                == acc[k],
        forall|k: int|
            acc.len() <= k < acc.len() + funcs.len() ==> #[trigger] spec_convert_functions(
                reg,
                syms,
                funcs,
                acc,
            )->Ok_0[k] == spec_convert_function(reg, syms, funcs[k - acc.len()])->Ok_0,
    decreases funcs.len(),
{
    if funcs.len() > 0 {
        let rest = funcs.subrange(1, funcs.len() as int);
        let f0 = spec_convert_function(reg, syms, funcs[0])->Ok_0;
        assert(forall|i: int| 0 <= i < rest.len() ==> rest[i] == funcs[i + 1]);
        lemma_convert_functions_all_ok(reg, syms, rest, acc.push(f0));
    }
}

/// A successfully converted function has a body exactly when its input is a
/// defined function.
proof fn lemma_converted_body_presence(
    reg: Seq<StructDefSpec>,
    syms: Seq<Seq<char>>,
    f: adapter::FunctionSpec,
)
    requires
        spec_convert_function(reg, syms, f) is Ok,
    ensures
        (spec_convert_function(reg, syms, f)->Ok_0.body is Some) == f.is_defined,
{
}

/// For any module with zero unsupported constructs — one whose module
/// conversion, registry build, and every per-function conversion succeed —
/// the whole translation succeeds, produces one output function per input
/// function, in order, and the outputs carrying a body are exactly the
/// defined inputs.
pub proof fn lemma_supported_module_translates(
    m: adapter::ModuleSpec,
    decls: Seq<adapter::StructDeclSpec>,
    funcs: Seq<adapter::FunctionSpec>,
)
    requires
        crate::module::spec_convert_module(m) is Ok,
        spec_build_registry(decls) is Ok,
        forall|i: int|
            0 <= i < funcs.len() ==> #[trigger] spec_convert_function(
                spec_build_registry(decls)->Ok_0,
                spec_collect_symbols(funcs, Seq::empty()),
                funcs[i],
            ) is Ok,
    ensures
        spec_analyze(m, decls, funcs) is Ok,
        spec_analyze(m, decls, funcs)->Ok_0.1.len() == funcs.len(),
        forall|i: int|
            0 <= i < funcs.len() ==> ((#[trigger] spec_analyze(m, decls, funcs)->Ok_0.1[i]).body
                is Some) == funcs[i].is_defined,
{
    let reg = spec_build_registry(decls)->Ok_0;
    let syms = spec_collect_symbols(funcs, Seq::empty());
    lemma_convert_functions_all_ok(reg, syms, funcs, Seq::empty());
    assert forall|i: int| 0 <= i < funcs.len() implies ((#[trigger] spec_analyze(
        m,
        decls,
        funcs,
    )->Ok_0.1[i]).body is Some) == funcs[i].is_defined by {
        assert(spec_convert_functions(reg, syms, funcs, Seq::empty())->Ok_0[i]
            == spec_convert_function(reg, syms, funcs[i - 0])->Ok_0);
        assert(spec_analyze(m, decls, funcs)->Ok_0.1 == spec_convert_functions(
            reg,
            syms,
            funcs,
            Seq::empty(),
        )->Ok_0);
        lemma_converted_body_presence(reg, syms, funcs[i]);
    }
}

/// Register typing is stable.  For a register reference whose declared type
/// converts to the expected type: the first occurrence binds the slot to that
/// type; a later occurrence with a different bound type is an invariant
/// violation and leaves the table unchanged; a later occurrence with the same
/// bound type succeeds silently, leaving the table unchanged.
pub proof fn lemma_register_typing_stable(
    ctx: ContextSpec,
    ty: adapter::TypeSpec,
    index: nat,
    expected: TypeSpec,
)
    requires
        spec_convert_type(ctx.typing, ty) == Result::<TypeSpec, ErrorSpec>::Ok(expected),
    ensures
        table_get(ctx.insts, index) == Option::Some(Option::<TypeSpec>::None) ==> ({
            let step = spec_parse_value(
                ctx,
                adapter::ValueSpec::Instruction { ty, index },
                expected,
            );
            &&& step.0 == Result::<ValueSpec, ErrorSpec>::Ok(
                ValueSpec::Register { index, ty: expected },
            )
            &&& table_get(step.1, index) == Option::Some(Option::Some(expected))
        }),
        forall|bound: TypeSpec|
            table_get(ctx.insts, index) == Option::Some(Option::Some(bound)) && bound != expected
                ==> #[trigger] spec_parse_value(
                ctx,
                adapter::ValueSpec::Instruction { ty, index },
                expected,
            ) == (
                Result::<ValueSpec, ErrorSpec>::Err(
                    ErrorSpec::InvariantViolation("register type mismatch"@),
                ),
                ctx.insts,
            ),
        table_get(ctx.insts, index) == Option::Some(Option::Some(expected)) ==> spec_parse_value(
            ctx,
            adapter::ValueSpec::Instruction { ty, index },
            expected,
        ) == (
            Result::<ValueSpec, ErrorSpec>::Ok(ValueSpec::Register { index, ty: expected }),
            ctx.insts,
        ),
{
    if table_get(ctx.insts, index) == Option::Some(Option::<TypeSpec>::None) {
        lemma_table_get_set(ctx.insts, index, Option::Some(expected));
    }
}

/// Any load or store whose ordering is not the literal `not_atomic` is
/// rejected as an atomic instruction, whatever the context, and the register
/// table is left untouched.
pub proof fn lemma_atomic_ordering_rejected(ctx: ContextSpec, inst: adapter::InstructionSpec)
    requires
        match inst.repr {
            adapter::InstSpec::Load { ordering, .. } => ordering != "not_atomic"@,
            adapter::InstSpec::Store { ordering, .. } => ordering != "not_atomic"@,
            _ => false,
        },
    ensures
        spec_parse_instruction(ctx, inst).0 == Result::<
            crate::instruction::InstructionSpec,
            ErrorSpec,
        >::Err(ErrorSpec::NotSupportedYet(Unsupported::AtomicInstruction)),
        spec_parse_instruction(ctx, inst).1 == ctx.insts,
{
}

/// An instruction shape that every context rejects, both as an ordinary
/// instruction and as a terminator.
pub open spec fn always_rejected(x: adapter::InstructionSpec) -> bool {
    &&& forall|c: ContextSpec| (#[trigger] spec_parse_instruction(c, x)).0 is Err
    &&& forall|c: ContextSpec| (#[trigger] spec_parse_terminator(c, x)).0 is Err
}

/// A load or store with a non-`not_atomic` ordering is rejected everywhere.
pub proof fn lemma_atomic_always_rejected(x: adapter::InstructionSpec)
    requires
        match x.repr {
            adapter::InstSpec::Load { ordering, .. } => ordering != "not_atomic"@,
            adapter::InstSpec::Store { ordering, .. } => ordering != "not_atomic"@,
            _ => false,
        },
    ensures
        always_rejected(x),
{
    assert forall|c: ContextSpec| (#[trigger] spec_parse_instruction(c, x)).0 is Err by {
        lemma_atomic_ordering_rejected(c, x);
    }
    assert forall|c: ContextSpec| (#[trigger] spec_parse_terminator(c, x)).0 is Err by {}
}

/// A body holding an always-rejected instruction never translates.
proof fn lemma_insts_with_rejected_fail(
    ctx: ContextSpec,
    body: Seq<adapter::InstructionSpec>,
    acc: Seq<crate::instruction::InstructionSpec>,
    j: int,
)
    requires
        0 <= j < body.len(),
        always_rejected(body[j]),
    ensures
        spec_translate_insts(ctx, body, acc).0 is Err,
    decreases body.len(),
{
    let step = spec_parse_instruction(ctx, body[0]);
    if j == 0 {
        assert(step.0 is Err);
    } else {
        match step.0 {
            Result::Err(e) => {}
            Result::Ok(inst) => {
                let rest = body.subrange(1, body.len() as int);
                assert(rest[j - 1] == body[j]);
                lemma_insts_with_rejected_fail(
                    ctx_with_insts(ctx, step.1),
                    rest,
                    acc.push(inst),
                    j - 1,
                );
            }
        }
    }
}

/// A block list holding an always-rejected instruction anywhere never
/// translates.
proof fn lemma_blocks_with_rejected_fail(
    ctx: ContextSpec,
    blocks: Seq<adapter::BlockSpec>,
    acc: Seq<crate::cfg::BasicBlockSpec>,
    bi: int,
    ii: int,
)
    requires
        0 <= bi < blocks.len(),
        0 <= ii < blocks[bi].body.len(),
        always_rejected(blocks[bi].body[ii]),
    ensures
        spec_translate_blocks(ctx, blocks, acc).0 is Err,
    decreases blocks.len(),
{
    let b = blocks[0];
    if bi == 0 {
        if b.body.len() > 0 {
            let prefix = b.body.subrange(0, b.body.len() - 1);
            let istep = spec_translate_insts(ctx, prefix, Seq::empty());
            if ii < b.body.len() - 1 {
                assert(prefix[ii] == b.body[ii]);
                lemma_insts_with_rejected_fail(ctx, prefix, Seq::empty(), ii);
            } else {
                match istep.0 {
                    Result::Err(e) => {}
                    Result::Ok(insts) => {
                        assert(b.body.last() == b.body[ii]);
                        let tstep = spec_parse_terminator(
                            ctx_with_insts(ctx, istep.1),
                            b.body.last(),
                        );
                        assert(tstep.0 is Err);
                    }
                }
            }
        }
    } else {
        if b.body.len() > 0 {
            let prefix = b.body.subrange(0, b.body.len() - 1);
            let istep = spec_translate_insts(ctx, prefix, Seq::empty());
            match istep.0 {
                Result::Err(e) => {}
                Result::Ok(insts) => {
                    let tstep = spec_parse_terminator(ctx_with_insts(ctx, istep.1), b.body.last());
                    match tstep.0 {
                        Result::Err(e) => {}
                        Result::Ok(term) => {
                            let rest = blocks.subrange(1, blocks.len() as int);
                            assert(rest[bi - 1] == blocks[bi]);
                            lemma_blocks_with_rejected_fail(
                                ctx_with_insts(ctx, tstep.1),
                                rest,
                                acc.push(
                                    crate::cfg::BasicBlockSpec {
                                        label: b.label,
                                        instructions: insts,
                                        terminator: term,
                                    },
                                ),
                                bi - 1,
                                ii,
                            );
                        }
                    }
                }
            }
        }
    }
}

/// A function body holding a load or store with a non-`not_atomic` ordering
/// yields no control-flow graph at all: the build fails outright, so no
/// partial instruction list is ever produced.
pub proof fn lemma_atomic_ordering_no_partial_cfg(
    typing: Seq<StructDefSpec>,
    symbols: Seq<Seq<char>>,
    params: Seq<TypeSpec>,
    ret: Option<TypeSpec>,
    blocks: Seq<adapter::BlockSpec>,
    bi: int,
    ii: int,
)
    requires
        0 <= bi < blocks.len(),
        0 <= ii < blocks[bi].body.len(),
        match blocks[bi].body[ii].repr {
            adapter::InstSpec::Load { ordering, .. } => ordering != "not_atomic"@,
            adapter::InstSpec::Store { ordering, .. } => ordering != "not_atomic"@,
            _ => false,
        },
    ensures
        spec_build_cfg(typing, symbols, params, ret, blocks) is Err,
{
    lemma_atomic_always_rejected(blocks[bi].body[ii]);
    match spec_scan_blocks(Seq::empty(), Seq::empty(), blocks) {
        Result::Err(e) => {}
        Result::Ok(scanned) => {
            let ctx = ContextSpec {
                typing,
                symbols,
                blocks: scanned.0,
                insts: scanned.1,
                args: params,
                ret,
            };
            lemma_blocks_with_rejected_fail(ctx, blocks, Seq::empty(), bi, ii);
        }
    }
}

/// A defined function must have at least one block, and a defined function
/// must not also be an intrinsic; each violation is rejected with its own
/// reason, after the signature and parameters have been accepted.
pub proof fn lemma_defined_function_demands(
    reg: Seq<StructDefSpec>,
    syms: Seq<Seq<char>>,
    f: adapter::FunctionSpec,
)
    requires
        f.is_exact,
        f.name is Some,
        spec_convert_type(reg, f.ty) is Ok,
        spec_convert_type(reg, f.ty)->Ok_0 is Function,
        f.params.len() == spec_convert_type(reg, f.ty)->Ok_0->Function_params.len(),
        crate::function::spec_convert_params(
            reg,
            f.params,
            spec_convert_type(reg, f.ty)->Ok_0->Function_params,
            f.name->0,
            Seq::empty(),
        ) is Ok,
        f.is_defined,
    ensures
        f.blocks.len() == 0 ==> spec_convert_function(reg, syms, f) == Result::<
            crate::function::FunctionSpec,
            ErrorSpec,
        >::Err(
            ErrorSpec::InvalidAssumption(
                "a defined function must have at least one basic block: "@ + f.name->0,
            ),
        ),
        f.blocks.len() > 0 && f.is_intrinsic ==> spec_convert_function(reg, syms, f) == Result::<
            crate::function::FunctionSpec,
            ErrorSpec,
        >::Err(
            ErrorSpec::InvalidAssumption(
                "a defined function cannot be an intrinsic: "@ + f.name->0,
            ),
        ),
{
}

/// Duplicate incoming phi edges from one block collapse: with equal parsed
/// values the node keeps one stored entry for the block; with different
/// parsed values the node is an invariant violation.
pub proof fn lemma_phi_duplicate_edges(
    ctx: ContextSpec,
    inst_ty: TypeSpec,
    o1: adapter::PhiOptionSpec,
    o2: adapter::PhiOptionSpec,
)
    requires
        o1.block == o2.block,
        ctx.blocks.contains(o1.block),
        spec_parse_value(ctx, o1.value, inst_ty).0 is Ok,
        spec_parse_value(
            ctx_with_insts(ctx, spec_parse_value(ctx, o1.value, inst_ty).1),
            o2.value,
            inst_ty,
        ).0 is Ok,
    ensures
        ({
            let s1 = spec_parse_value(ctx, o1.value, inst_ty);
            let s2 = spec_parse_value(ctx_with_insts(ctx, s1.1), o2.value, inst_ty);
            let outcome = spec_phi_options(ctx, inst_ty, seq![o1, o2], Seq::empty());
            &&& (s1.0 != s2.0 ==> outcome.0 == Result::<Seq<(nat, ValueSpec)>, ErrorSpec>::Err(
                ErrorSpec::InvariantViolation(
                    "duplicated edges into phi node with different values"@,
                ),
            ))
            &&& (s1.0 == s2.0 ==> outcome.0 == Result::<Seq<(nat, ValueSpec)>, ErrorSpec>::Ok(
                seq![(o1.block, s1.0->Ok_0)],
            ))
        }),
{
    reveal_with_fuel(spec_phi_options, 4);
    let opts = seq![o1, o2];
    let s1 = spec_parse_value(ctx, o1.value, inst_ty);
    let v1 = s1.0->Ok_0;
    let ctx2 = ctx_with_insts(ctx, s1.1);
    let s2 = spec_parse_value(ctx2, o2.value, inst_ty);
    assert(opts[0] == o1);
    assert(opts.subrange(1, 2) =~= seq![o2]);
    assert(seq![o2][0] == o2);
    assert(phi_find(Seq::empty(), o1.block) is None);
    let acc1 = Seq::<(nat, ValueSpec)>::empty().push((o1.block, v1));
    assert(acc1[0] == (o1.block, v1));
    assert(phi_find(acc1, o2.block) == Option::Some(v1));
    assert(seq![o2].subrange(1, 1) =~= Seq::<adapter::PhiOptionSpec>::empty());
    assert(ctx2.blocks == ctx.blocks);
    assert(spec_phi_options(ctx, inst_ty, opts, Seq::empty()) == spec_phi_options(
        ctx2,
        inst_ty,
        seq![o2],
        acc1,
    ));
    if s1.0 == s2.0 {
        assert(spec_phi_options(
            ctx_with_insts(ctx2, s2.1),
            inst_ty,
            Seq::empty(),
            acc1,
        ).0 == Result::<Seq<(nat, ValueSpec)>, ErrorSpec>::Ok(acc1));
        assert(acc1 =~= seq![(o1.block, v1)]);
    }
}

} // verus!
