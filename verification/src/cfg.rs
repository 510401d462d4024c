//! The control-flow-graph builder: a pre-scan discovers the full block-label
//! set and creates one unbound register slot per instruction, so that forward
//! references validate; then each block's body is translated, every
//! instruction but the last through the instruction translator and the last
//! through the terminator translator.

use vstd::prelude::*;

use crate::adapter;
use crate::context::{Context, ContextSpec, RegisterTable, ctx_with_insts, table_get};
use crate::error::{EngineError, EngineResult, ErrorSpec, result_view};
use crate::instruction::{Instruction, InstructionSpec, Terminator, TerminatorSpec};
use crate::shared::{Identifier, SymbolRegistry};
use crate::translate::{spec_parse_instruction, spec_parse_terminator};
use crate::typing::{Type, TypeSpec, TypeRegistry, StructDefSpec, type_dup};
use crate::value::BlockLabel;

verus! {

/// One translated basic block.
#[derive(Debug, PartialEq, Eq)]
pub struct BasicBlock {
    /// the block's label
    pub label: BlockLabel,
    /// every instruction of the block but the last
    pub instructions: Vec<Instruction>,
    /// the block-final instruction
    pub terminator: Terminator,
}

/// Mathematical model of a translated basic block.
#[verifier::ext_equal]
pub struct BasicBlockSpec {
    pub label: nat,
    pub instructions: Seq<InstructionSpec>,
    pub terminator: TerminatorSpec,
}

impl View for BasicBlock {
    type V = BasicBlockSpec;

    open spec fn view(&self) -> BasicBlockSpec {
        BasicBlockSpec {
            label: self.label@,
            instructions: Seq::new(self.instructions@.len(), |i: int| self.instructions@[i]@),
            terminator: self.terminator@,
        }
    }
}

/// The translated body of a function: its blocks, in declaration order.
#[derive(Debug, PartialEq, Eq)]
pub struct ControlFlowGraph {
    pub blocks: Vec<BasicBlock>,
}

impl View for ControlFlowGraph {
    type V = Seq<BasicBlockSpec>;

    open spec fn view(&self) -> Seq<BasicBlockSpec> {
        Seq::new(self.blocks@.len(), |i: int| self.blocks@[i]@)
    }
}

/// Scanning one block body: every instruction index receives an unbound
/// register slot, and an index seen twice is an invariant violation.
pub open spec fn spec_scan_body(
    tbl: Seq<(nat, Option<TypeSpec>)>,
    body: Seq<adapter::InstructionSpec>,
) -> Result<Seq<(nat, Option<TypeSpec>)>, ErrorSpec>
    decreases body.len(),
{
    if body.len() == 0 {
        Result::Ok(tbl)
    } else if table_get(tbl, body[0].index) is Some {
        Result::Err(ErrorSpec::InvariantViolation("duplicate instruction index"@))
    } else {
        spec_scan_body(
            tbl.push((body[0].index, Option::None)),
            body.subrange(1, body.len() as int),
        )
    }
}

/// Scanning the block list: labels are collected in order and must be unique;
/// every block's body is scanned for instruction indices.
pub open spec fn spec_scan_blocks(
    labels: Seq<nat>,
    tbl: Seq<(nat, Option<TypeSpec>)>,
    blocks: Seq<adapter::BlockSpec>,
) -> Result<(Seq<nat>, Seq<(nat, Option<TypeSpec>)>), ErrorSpec>
    decreases blocks.len(),
{
    if blocks.len() == 0 {
        Result::Ok((labels, tbl))
    } else if labels.contains(blocks[0].label) {
        Result::Err(ErrorSpec::InvariantViolation("duplicate block label"@))
    } else {
        match spec_scan_body(tbl, blocks[0].body) {
            Result::Err(e) => Result::Err(e),
            Result::Ok(t2) => spec_scan_blocks(
                labels.push(blocks[0].label),
                t2,
                blocks.subrange(1, blocks.len() as int),
            ),
        }
    }
}

/// Translating every instruction of a block body but the last, collecting
/// into `acc` and threading the register table.
pub open spec fn spec_translate_insts(
    ctx: ContextSpec,
    body: Seq<adapter::InstructionSpec>,
    acc: Seq<InstructionSpec>,
) -> (Result<Seq<InstructionSpec>, ErrorSpec>, Seq<(nat, Option<TypeSpec>)>)
    decreases body.len(),
{
    if body.len() == 0 {
        (Result::Ok(acc), ctx.insts)
    } else {
        let step = spec_parse_instruction(ctx, body[0]);
        match step.0 {
            Result::Err(e) => (Result::Err(e), step.1),
            Result::Ok(inst) => spec_translate_insts(
                ctx_with_insts(ctx, step.1),
                body.subrange(1, body.len() as int),
                acc.push(inst),
            ),
        }
    }
}

/// Translating the block list into basic blocks, threading the register
/// table across blocks.  An empty body has no terminator position and is an
/// invariant violation.
pub open spec fn spec_translate_blocks(
    ctx: ContextSpec,
    blocks: Seq<adapter::BlockSpec>,
    acc: Seq<BasicBlockSpec>,
) -> (Result<Seq<BasicBlockSpec>, ErrorSpec>, Seq<(nat, Option<TypeSpec>)>)
    decreases blocks.len(),
{
    if blocks.len() == 0 {
        (Result::Ok(acc), ctx.insts)
    } else {
        let b = blocks[0];
        if b.body.len() == 0 {
            (
                Result::Err(ErrorSpec::InvariantViolation("malformed block without terminator"@)),
                ctx.insts,
            )
        } else {
            let istep = spec_translate_insts(
                ctx,
                b.body.subrange(0, b.body.len() - 1),
                Seq::empty(),
            );
            match istep.0 {
                Result::Err(e) => (Result::Err(e), istep.1),
                Result::Ok(insts) => {
                    let tstep = spec_parse_terminator(
                        ctx_with_insts(ctx, istep.1),
                        b.body.last(),
                    );
                    match tstep.0 {
                        Result::Err(e) => (Result::Err(e), tstep.1),
                        Result::Ok(term) => spec_translate_blocks(
                            ctx_with_insts(ctx, tstep.1),
                            blocks.subrange(1, blocks.len() as int),
                            acc.push(
                                BasicBlockSpec {
                                    label: b.label,
                                    instructions: insts,
                                    terminator: term,
                                },
                            ),
                        ),
                    }
                }
            }
        }
    }
}

/// The declared types of a function's parameters, by position.
pub open spec fn param_types_view(params: Seq<(Option<Seq<char>>, TypeSpec)>) -> Seq<TypeSpec> {
    Seq::new(params.len(), |i: int| params[i].1)
}

/// What building a function's control-flow graph yields: the pre-scan
/// followed by the per-block translation against the discovered block set.
pub open spec fn spec_build_cfg(
    typing: Seq<StructDefSpec>,
    symbols: Seq<Seq<char>>,
    params: Seq<TypeSpec>,
    ret: Option<TypeSpec>,
    blocks: Seq<adapter::BlockSpec>,
) -> Result<Seq<BasicBlockSpec>, ErrorSpec> {
    match spec_scan_blocks(Seq::empty(), Seq::empty(), blocks) {
        Result::Err(e) => Result::Err(e),
        Result::Ok(scanned) => {
            let ctx = ContextSpec {
                typing,
                symbols,
                blocks: scanned.0,
                insts: scanned.1,
                args: params,
                ret,
            };
            spec_translate_blocks(ctx, blocks, Seq::empty()).0
        }
    }
}

/// Whether a label stands in the list already.
fn labels_contain(labels: &Vec<usize>, label: usize) -> (r: bool)
    ensures
        r == Seq::new(labels@.len(), |i: int| labels@[i] as nat).contains(label as nat),
{
    let ghost view = Seq::new(labels@.len(), |i: int| labels@[i] as nat);
    let n = labels.len();
    for i in 0..n
        invariant
            n == labels@.len(),
            view == Seq::new(labels@.len(), |j: int| labels@[j] as nat),
            forall|j: int| 0 <= j < i ==> view[j] != label as nat,
    {
        if labels[i] == label {
            assert(view[i as int] == label as nat);
            return true;
        }
    }
    proof {
        assert(forall|j: int| 0 <= j < view.len() ==> view[j] != label as nat);
    }
    false
}

impl ControlFlowGraph {
    /// Build the control-flow graph of one defined function.
    #[verifier::loop_isolation(false)]
    #[verifier::rlimit(60)]
    pub fn build(
        typing: &TypeRegistry,
        symbols: &SymbolRegistry,
        params: &Vec<(Option<Identifier>, Type)>,
        ret: Option<&Type>,
        blocks: &Vec<adapter::Block>,
    ) -> (r: EngineResult<ControlFlowGraph>)
        ensures
            result_view(r) == spec_build_cfg(
                typing@,
                symbols@,
                Seq::new(params@.len(), |i: int| params@[i].1@),
                match ret {
                    Option::None => Option::None,
                    Option::Some(t) => Option::Some(t@),
                },
                adapter::blocks_view(blocks@),
            ),
    {
        let ghost bs = adapter::blocks_view(blocks@);
        // pass (a): discover the block set and the instruction indices
        let mut labels: Vec<usize> = Vec::new();
        let mut table = RegisterTable::new();
        let n = blocks.len();
        proof {
            assert(bs.subrange(0, bs.len() as int) =~= bs);
            assert(Seq::new(labels@.len(), |i: int| labels@[i] as nat) =~= Seq::<nat>::empty());
        }
        for bi in 0..n
            invariant
                spec_scan_blocks(Seq::empty(), Seq::empty(), bs) == spec_scan_blocks(
                    Seq::new(labels@.len(), |i: int| labels@[i] as nat),
                    table@,
                    bs.subrange(bi as int, bs.len() as int),
                ),
        {
            let ghost suffix = bs.subrange(bi as int, bs.len() as int);
            proof {
                assert(suffix[0] == bs[bi as int]);
                assert(bs[bi as int] == blocks@[bi as int]@);
                assert(suffix.subrange(1, suffix.len() as int) =~= bs.subrange(
                    bi + 1,
                    bs.len() as int,
                ));
            }
            let block = &blocks[bi];
            if labels_contain(&labels, block.label) {
                return Result::Err(
                    EngineError::InvariantViolation("duplicate block label".to_owned()),
                );
            }
            let ghost body = adapter::instructions_view(block.body@);
            let ghost tbl_start = table@;
            let m = block.body.len();
            proof {
                assert(body.subrange(0, body.len() as int) =~= body);
            }
            for ii in 0..m
                invariant
                    m == block.body@.len(),
                    body == adapter::instructions_view(block.body@),
                    spec_scan_body(tbl_start, body) == spec_scan_body(
                        table@,
                        body.subrange(ii as int, body.len() as int),
                    ),
            {
                let ghost bsuffix = body.subrange(ii as int, body.len() as int);
                proof {
                    assert(bsuffix[0] == body[ii as int]);
                    assert(body[ii as int] == block.body@[ii as int]@);
                    assert(bsuffix.subrange(1, bsuffix.len() as int) =~= body.subrange(
                        ii + 1,
                        body.len() as int,
                    ));
                }
                let fresh = table.register(block.body[ii].index);
                if !fresh {
                    return Result::Err(
                        EngineError::InvariantViolation("duplicate instruction index".to_owned()),
                    );
                }
            }
            proof {
                assert(body.subrange(m as int, body.len() as int).len() == 0);
            }
            let ghost prev_labels = Seq::new(labels@.len(), |i: int| labels@[i] as nat);
            labels.push(block.label);
            proof {
                assert(Seq::new(labels@.len(), |i: int| labels@[i] as nat) =~= prev_labels.push(
                    block.label as nat,
                ));
            }
        }
        proof {
            assert(bs.subrange(n as int, bs.len() as int).len() == 0);
        }
        // the discovered block set and register arena seed the context
        let mut args: Vec<Type> = Vec::new();
        let pn = params.len();
        for pi in 0..pn
            invariant
                args@.len() == pi,
                forall|j: int| 0 <= j < pi ==> args@[j]@ == params@[j].1@,
        {
            let d = type_dup(&params[pi].1);
            args.push(d);
        }
        let ret_own: Option<Type> = match ret {
            Option::None => Option::None,
            Option::Some(t) => Option::Some(type_dup(t)),
        };
        let mut ctx = Context {
            typing,
            symbols,
            blocks: labels,
            insts: table,
            args,
            ret: ret_own,
        };
        let ghost ctx0 = ctx@;
        proof {
            assert(ctx0.args =~= Seq::new(params@.len(), |i: int| params@[i].1@));
            assert(ctx0 =~= (ContextSpec {
                typing: typing@,
                symbols: symbols@,
                blocks: spec_scan_blocks(Seq::empty(), Seq::empty(), bs)->Ok_0.0,
                insts: spec_scan_blocks(Seq::empty(), Seq::empty(), bs)->Ok_0.1,
                args: Seq::new(params@.len(), |i: int| params@[i].1@),
                ret: match ret {
                    Option::None => Option::None,
                    Option::Some(t) => Option::Some(t@),
                },
            }));
        }
        // pass (b): translate every block against the full block set
        let mut out_blocks: Vec<BasicBlock> = Vec::new();
        proof {
            assert(Seq::new(out_blocks@.len(), |i: int| out_blocks@[i]@) =~= Seq::<
                BasicBlockSpec,
            >::empty());
        }
        for bi in 0..n
            invariant
                spec_translate_blocks(ctx0, bs, Seq::empty()).0 == spec_translate_blocks(
                    ctx@,
                    bs.subrange(bi as int, bs.len() as int),
                    Seq::new(out_blocks@.len(), |i: int| out_blocks@[i]@),
                ).0,
                ctx@ == ctx_with_insts(ctx0, ctx@.insts),
        {
            let ghost suffix = bs.subrange(bi as int, bs.len() as int);
            proof {
                assert(suffix[0] == bs[bi as int]);
                assert(bs[bi as int] == blocks@[bi as int]@);
                assert(suffix.subrange(1, suffix.len() as int) =~= bs.subrange(
                    bi + 1,
                    bs.len() as int,
                ));
            }
            let block = &blocks[bi];
            let m = block.body.len();
            if m == 0 {
                return Result::Err(
                    EngineError::InvariantViolation("malformed block without terminator".to_owned()),
                );
            }
            let ghost body = adapter::instructions_view(block.body@);
            let ghost prefix = body.subrange(0, body.len() - 1);
            let ghost block_ctx = ctx@;
            let mut insts_new: Vec<Instruction> = Vec::new();
            proof {
                assert(prefix.subrange(0, prefix.len() as int) =~= prefix);
                assert(Seq::new(insts_new@.len(), |i: int| insts_new@[i]@) =~= Seq::<
                    InstructionSpec,
                >::empty());
            }
            for ii in 0..(m - 1)
                invariant
                    m == block.body@.len(),
                    m >= 1,
                    body == adapter::instructions_view(block.body@),
                    prefix == body.subrange(0, body.len() - 1),
                    block_ctx == ctx_with_insts(ctx0, block_ctx.insts),
                    spec_translate_insts(block_ctx, prefix, Seq::empty()).0
                        == spec_translate_insts(
                        ctx@,
                        prefix.subrange(ii as int, prefix.len() as int),
                        Seq::new(insts_new@.len(), |i: int| insts_new@[i]@),
                    ).0,
                    spec_translate_insts(block_ctx, prefix, Seq::empty()).1
                        == spec_translate_insts(
                        ctx@,
                        prefix.subrange(ii as int, prefix.len() as int),
                        Seq::new(insts_new@.len(), |i: int| insts_new@[i]@),
                    ).1,
                    ctx@ == ctx_with_insts(ctx0, ctx@.insts),
            {
                let ghost isuffix = prefix.subrange(ii as int, prefix.len() as int);
                proof {
                    assert(isuffix[0] == prefix[ii as int]);
                    assert(prefix[ii as int] == body[ii as int]);
                    assert(body[ii as int] == block.body@[ii as int]@);
                    assert(isuffix.subrange(1, isuffix.len() as int) =~= prefix.subrange(
                        ii + 1,
                        prefix.len() as int,
                    ));
                }
                match ctx.parse_instruction(&block.body[ii]) {
                    Result::Err(e) => {
                        return Result::Err(e);
                    }
                    Result::Ok(inst) => {
                        let ghost prev = Seq::new(insts_new@.len(), |i: int| insts_new@[i]@);
                        insts_new.push(inst);
                        proof {
                            assert(Seq::new(insts_new@.len(), |i: int| insts_new@[i]@)
                                =~= prev.push(insts_new@.last()@));
                        }
                    }
                }
            }
            proof {
                assert(prefix.subrange((m - 1) as int, prefix.len() as int).len() == 0);
            }
            let terminator = match ctx.parse_terminator(&block.body[m - 1]) {
                Result::Err(e) => {
                    return Result::Err(e);
                }
                Result::Ok(t) => t,
            };
            proof {
                assert(body[(m - 1) as int] == block.body@[(m - 1) as int]@);
                assert(body.last() == body[(m - 1) as int]);
            }
            let ghost prev_out = Seq::new(out_blocks@.len(), |i: int| out_blocks@[i]@);
            out_blocks.push(
                BasicBlock {
                    label: BlockLabel::new(block.label),
                    instructions: insts_new,
                    terminator,
                },
            );
            proof {
                assert(Seq::new(out_blocks@.len(), |i: int| out_blocks@[i]@) =~= prev_out.push(
                    out_blocks@.last()@,
                ));
            }
        }
        proof {
            assert(bs.subrange(n as int, bs.len() as int).len() == 0);
        }
        let cfg = ControlFlowGraph { blocks: out_blocks };
        proof {
            assert(cfg@ =~= Seq::new(cfg.blocks@.len(), |i: int| cfg.blocks@[i]@));
        }
        Result::Ok(cfg)
    }
}

} // verus!
