//! Tests of the per-instruction and per-terminator translation, driven
//! through a context built by hand.

use libra::adapter;
use libra::constant::Constant;
use libra::context::{Context, RegisterTable};
use libra::error::{EngineError, Unsupported};
use libra::instruction::{Instruction, Terminator};
use libra::shared::SymbolRegistry;
use libra::typing::{Type, TypeRegistry};
use libra::value::{BlockLabel, RegisterSlot, Value};

fn empty_typing() -> TypeRegistry {
    TypeRegistry { structs: Vec::new() }
}

fn fresh_context<'a>(
    typing: &'a TypeRegistry,
    symbols: &'a SymbolRegistry,
    blocks: Vec<usize>,
    registers: Vec<usize>,
) -> Context<'a> {
    let mut insts = RegisterTable::new();
    for index in registers {
        assert!(insts.register(index));
    }
    Context {
        typing,
        symbols,
        blocks,
        insts,
        args: Vec::new(),
        ret: None,
    }
}

fn int_const(width: usize, value: i128) -> adapter::Value {
    adapter::Value::Constant(adapter::Constant {
        ty: adapter::Type::Int { width },
        repr: adapter::Const::Int { value },
    })
}

fn null_pointer() -> adapter::Value {
    adapter::Value::Constant(adapter::Constant {
        ty: adapter::Type::Pointer {
            pointee: Box::new(adapter::Type::Int { width: 8 }),
            address_space: 0,
        },
        repr: adapter::Const::Null,
    })
}

fn pointer_type() -> adapter::Type {
    adapter::Type::Pointer {
        pointee: Box::new(adapter::Type::Int { width: 8 }),
        address_space: 0,
    }
}

#[test]
fn switch_lowering_collects_cases_in_order() {
    let typing = empty_typing();
    let symbols = SymbolRegistry::empty();
    let mut ctx = fresh_context(&typing, &symbols, vec![0, 1, 2], vec![]);
    let inst = adapter::Instruction {
        name: None,
        ty: adapter::Type::Void,
        index: 9,
        repr: adapter::Inst::Switch {
            cond: int_const(32, 5),
            cond_ty: adapter::Type::Int { width: 32 },
            cases: vec![
                adapter::SwitchCase {
                    block: 0,
                    value: adapter::Constant {
                        ty: adapter::Type::Int { width: 32 },
                        repr: adapter::Const::Int { value: 1 },
                    },
                },
                adapter::SwitchCase {
                    block: 1,
                    value: adapter::Constant {
                        ty: adapter::Type::Int { width: 32 },
                        repr: adapter::Const::Int { value: 2 },
                    },
                },
            ],
            default: Some(2),
        },
    };
    let got = ctx.parse_terminator(&inst).expect("switch should translate");
    let expected = Terminator::Switch {
        cond: Value::Constant(Constant::Bitvec { bits: 32, value: 5 }),
        cases: vec![(1, BlockLabel(0)), (2, BlockLabel(1))],
        default: Some(BlockLabel(2)),
    };
    assert_eq!(got, expected);
}

#[test]
fn switch_duplicate_case_label_takes_later_target() {
    // a duplicate case label resolves to the later target: last write wins
    let typing = empty_typing();
    let symbols = SymbolRegistry::empty();
    let mut ctx = fresh_context(&typing, &symbols, vec![0, 1, 3], vec![]);
    let inst = adapter::Instruction {
        name: None,
        ty: adapter::Type::Void,
        index: 9,
        repr: adapter::Inst::Switch {
            cond: int_const(32, 5),
            cond_ty: adapter::Type::Int { width: 32 },
            cases: vec![
                adapter::SwitchCase {
                    block: 0,
                    value: adapter::Constant {
                        ty: adapter::Type::Int { width: 32 },
                        repr: adapter::Const::Int { value: 1 },
                    },
                },
                adapter::SwitchCase {
                    block: 3,
                    value: adapter::Constant {
                        ty: adapter::Type::Int { width: 32 },
                        repr: adapter::Const::Int { value: 1 },
                    },
                },
            ],
            default: None,
        },
    };
    let got = ctx.parse_terminator(&inst).expect("switch should translate");
    match got {
        Terminator::Switch { cases, default, .. } => {
            assert_eq!(cases, vec![(1, BlockLabel(3))]);
            assert_eq!(default, None);
        }
        other => panic!("expected a switch, got {:?}", other),
    }
}

#[test]
fn switch_case_into_unknown_block_is_rejected() {
    let typing = empty_typing();
    let symbols = SymbolRegistry::empty();
    let mut ctx = fresh_context(&typing, &symbols, vec![0], vec![]);
    let inst = adapter::Instruction {
        name: None,
        ty: adapter::Type::Void,
        index: 9,
        repr: adapter::Inst::Switch {
            cond: int_const(32, 5),
            cond_ty: adapter::Type::Int { width: 32 },
            cases: vec![adapter::SwitchCase {
                block: 7,
                value: adapter::Constant {
                    ty: adapter::Type::Int { width: 32 },
                    repr: adapter::Const::Int { value: 1 },
                },
            }],
            default: None,
        },
    };
    match ctx.parse_terminator(&inst) {
        Err(EngineError::InvalidAssumption(msg)) => {
            assert_eq!(msg, "switch casing into an invalid block");
        }
        other => panic!("expected an invalid-assumption error, got {:?}", other),
    }
}

fn gep_instruction(dst: adapter::Type) -> adapter::Instruction {
    // GEP over Struct { fields: [Bitvec32, Array { Bitvec64, 4 }] } with
    // indices [0, 1, 2]
    let src = adapter::Type::Struct {
        fields: vec![
            adapter::Type::Int { width: 32 },
            adapter::Type::Array {
                element: Box::new(adapter::Type::Int { width: 64 }),
                length: 4,
            },
        ],
    };
    adapter::Instruction {
        name: None,
        ty: pointer_type(),
        index: 4,
        repr: adapter::Inst::GEP {
            src_pointee_ty: src,
            dst_pointee_ty: dst,
            pointer: null_pointer(),
            indices: vec![int_const(32, 0), int_const(32, 1), int_const(32, 2)],
            address_space: 0,
        },
    }
}

#[test]
fn gep_chain_resolves_declared_destination() {
    let typing = empty_typing();
    let symbols = SymbolRegistry::empty();
    let mut ctx = fresh_context(&typing, &symbols, vec![0], vec![]);
    let got = ctx
        .parse_instruction(&gep_instruction(adapter::Type::Int { width: 64 }))
        .expect("GEP should translate");
    match got {
        Instruction::GEP {
            dst_pointee_type,
            offset,
            indices,
            result,
            ..
        } => {
            assert_eq!(dst_pointee_type, Type::Bitvec { bits: 64 });
            assert_eq!(
                offset,
                Value::Constant(Constant::Bitvec { bits: 32, value: 0 })
            );
            assert_eq!(indices.len(), 2);
            assert_eq!(result, RegisterSlot(4));
        }
        other => panic!("expected a GEP, got {:?}", other),
    }
}

#[test]
fn gep_chain_with_wrong_destination_is_rejected() {
    let typing = empty_typing();
    let symbols = SymbolRegistry::empty();
    let mut ctx = fresh_context(&typing, &symbols, vec![0], vec![]);
    match ctx.parse_instruction(&gep_instruction(pointer_type())) {
        Err(EngineError::InvalidAssumption(msg)) => {
            assert_eq!(msg, "GEP destination type mismatch");
        }
        other => panic!("expected an invalid-assumption error, got {:?}", other),
    }
}

#[test]
fn gep_with_no_index_is_rejected() {
    let typing = empty_typing();
    let symbols = SymbolRegistry::empty();
    let mut ctx = fresh_context(&typing, &symbols, vec![0], vec![]);
    let inst = adapter::Instruction {
        name: None,
        ty: pointer_type(),
        index: 4,
        repr: adapter::Inst::GEP {
            src_pointee_ty: adapter::Type::Int { width: 32 },
            dst_pointee_ty: adapter::Type::Int { width: 32 },
            pointer: null_pointer(),
            indices: vec![],
            address_space: 0,
        },
    };
    match ctx.parse_instruction(&inst) {
        Err(EngineError::InvalidAssumption(msg)) => {
            assert_eq!(msg, "GEP contains no index");
        }
        other => panic!("expected an invalid-assumption error, got {:?}", other),
    }
}

fn load_with_ordering(ordering: &str) -> adapter::Instruction {
    adapter::Instruction {
        name: None,
        ty: adapter::Type::Int { width: 32 },
        index: 0,
        repr: adapter::Inst::Load {
            pointee_type: adapter::Type::Int { width: 32 },
            pointer: null_pointer(),
            ordering: ordering.to_string(),
            address_space: 0,
        },
    }
}

#[test]
fn load_with_acquire_ordering_is_an_atomic_rejection() {
    let typing = empty_typing();
    let symbols = SymbolRegistry::empty();
    let mut ctx = fresh_context(&typing, &symbols, vec![0], vec![0]);
    match ctx.parse_instruction(&load_with_ordering("acquire")) {
        Err(EngineError::NotSupportedYet(u)) => {
            assert_eq!(u, Unsupported::AtomicInstruction);
        }
        other => panic!("expected an atomic rejection, got {:?}", other),
    }
}

#[test]
fn load_with_not_atomic_ordering_translates() {
    let typing = empty_typing();
    let symbols = SymbolRegistry::empty();
    let mut ctx = fresh_context(&typing, &symbols, vec![0], vec![0]);
    let got = ctx
        .parse_instruction(&load_with_ordering("not_atomic"))
        .expect("load should translate");
    assert_eq!(
        got,
        Instruction::Load {
            pointee_type: Type::Bitvec { bits: 32 },
            pointer: Value::Constant(Constant::NullPointer),
            result: RegisterSlot(0),
        }
    );
}

#[test]
fn store_with_release_ordering_is_an_atomic_rejection() {
    let typing = empty_typing();
    let symbols = SymbolRegistry::empty();
    let mut ctx = fresh_context(&typing, &symbols, vec![0], vec![]);
    let inst = adapter::Instruction {
        name: None,
        ty: adapter::Type::Void,
        index: 1,
        repr: adapter::Inst::Store {
            pointee_type: adapter::Type::Int { width: 32 },
            pointer: null_pointer(),
            value: int_const(32, 7),
            ordering: "release".to_string(),
            address_space: 0,
        },
    };
    match ctx.parse_instruction(&inst) {
        Err(EngineError::NotSupportedYet(u)) => {
            assert_eq!(u, Unsupported::AtomicInstruction);
        }
        other => panic!("expected an atomic rejection, got {:?}", other),
    }
}

fn phi_with_values(first: i128, second: i128) -> adapter::Instruction {
    adapter::Instruction {
        name: None,
        ty: adapter::Type::Int { width: 32 },
        index: 2,
        repr: adapter::Inst::Phi {
            options: vec![
                adapter::PhiOption {
                    block: 1,
                    value: int_const(32, first),
                },
                adapter::PhiOption {
                    block: 1,
                    value: int_const(32, second),
                },
            ],
        },
    }
}

#[test]
fn phi_duplicate_edges_with_different_values_are_rejected() {
    let typing = empty_typing();
    let symbols = SymbolRegistry::empty();
    let mut ctx = fresh_context(&typing, &symbols, vec![0, 1], vec![2]);
    match ctx.parse_instruction(&phi_with_values(5, 6)) {
        Err(EngineError::InvariantViolation(msg)) => {
            assert_eq!(msg, "duplicated edges into phi node with different values");
        }
        other => panic!("expected an invariant violation, got {:?}", other),
    }
}

#[test]
fn phi_duplicate_edges_with_equal_values_collapse() {
    let typing = empty_typing();
    let symbols = SymbolRegistry::empty();
    let mut ctx = fresh_context(&typing, &symbols, vec![0, 1], vec![2]);
    let got = ctx
        .parse_instruction(&phi_with_values(5, 5))
        .expect("phi should translate");
    match got {
        Instruction::Phi { ty, options, result } => {
            assert_eq!(ty, Type::Bitvec { bits: 32 });
            assert_eq!(
                options,
                vec![(
                    BlockLabel(1),
                    Value::Constant(Constant::Bitvec { bits: 32, value: 5 })
                )]
            );
            assert_eq!(result, RegisterSlot(2));
        }
        other => panic!("expected a phi, got {:?}", other),
    }
}

#[test]
fn phi_edge_from_unknown_block_is_rejected() {
    let typing = empty_typing();
    let symbols = SymbolRegistry::empty();
    let mut ctx = fresh_context(&typing, &symbols, vec![0], vec![2]);
    match ctx.parse_instruction(&phi_with_values(5, 5)) {
        Err(EngineError::InvariantViolation(msg)) => {
            assert_eq!(msg, "unknown incoming edge into phi node");
        }
        other => panic!("expected an invariant violation, got {:?}", other),
    }
}

#[test]
fn register_type_is_fixed_by_first_reference() {
    let typing = empty_typing();
    let symbols = SymbolRegistry::empty();
    let mut ctx = fresh_context(&typing, &symbols, vec![0], vec![7]);
    // first occurrence binds register 7 to bitvec-32
    let first = ctx
        .parse_value(
            &adapter::Value::Instruction {
                ty: adapter::Type::Int { width: 32 },
                index: 7,
            },
            &Type::Bitvec { bits: 32 },
        )
        .expect("first reference should bind");
    assert_eq!(
        first,
        Value::Register {
            index: RegisterSlot(7),
            ty: Type::Bitvec { bits: 32 }
        }
    );
    // a second occurrence with the same type succeeds silently
    let second = ctx
        .parse_value(
            &adapter::Value::Instruction {
                ty: adapter::Type::Int { width: 32 },
                index: 7,
            },
            &Type::Bitvec { bits: 32 },
        )
        .expect("same-typed reference should succeed");
    assert_eq!(
        second,
        Value::Register {
            index: RegisterSlot(7),
            ty: Type::Bitvec { bits: 32 }
        }
    );
    // a second occurrence with a different type is an invariant violation
    match ctx.parse_value(
        &adapter::Value::Instruction {
            ty: adapter::Type::Int { width: 64 },
            index: 7,
        },
        &Type::Bitvec { bits: 64 },
    ) {
        Err(EngineError::InvariantViolation(msg)) => {
            assert_eq!(msg, "register type mismatch");
        }
        other => panic!("expected an invariant violation, got {:?}", other),
    }
}

#[test]
fn reference_to_unregistered_instruction_is_rejected() {
    let typing = empty_typing();
    let symbols = SymbolRegistry::empty();
    let mut ctx = fresh_context(&typing, &symbols, vec![0], vec![]);
    match ctx.parse_value(
        &adapter::Value::Instruction {
            ty: adapter::Type::Int { width: 32 },
            index: 3,
        },
        &Type::Bitvec { bits: 32 },
    ) {
        Err(EngineError::InvariantViolation(msg)) => {
            assert_eq!(msg, "invalid instruction index");
        }
        other => panic!("expected an invariant violation, got {:?}", other),
    }
}

#[test]
fn terminator_in_block_body_is_rejected() {
    let typing = empty_typing();
    let symbols = SymbolRegistry::empty();
    let mut ctx = fresh_context(&typing, &symbols, vec![0], vec![]);
    let inst = adapter::Instruction {
        name: None,
        ty: adapter::Type::Void,
        index: 0,
        repr: adapter::Inst::Unreachable,
    };
    match ctx.parse_instruction(&inst) {
        Err(EngineError::InvariantViolation(msg)) => {
            assert_eq!(msg, "malformed block with terminator instruction in the body");
        }
        other => panic!("expected an invariant violation, got {:?}", other),
    }
}

#[test]
fn ordinary_instruction_in_terminator_position_is_rejected() {
    let typing = empty_typing();
    let symbols = SymbolRegistry::empty();
    let mut ctx = fresh_context(&typing, &symbols, vec![0], vec![0]);
    let mut inst = load_with_ordering("not_atomic");
    inst.ty = adapter::Type::Void;
    match ctx.parse_terminator(&inst) {
        Err(EngineError::InvariantViolation(msg)) => {
            assert_eq!(msg, "malformed block with non-terminator instruction");
        }
        other => panic!("expected an invariant violation, got {:?}", other),
    }
}

#[test]
fn conditional_branch_translates_both_targets() {
    let typing = empty_typing();
    let symbols = SymbolRegistry::empty();
    let mut ctx = fresh_context(&typing, &symbols, vec![0, 1], vec![]);
    let inst = adapter::Instruction {
        name: None,
        ty: adapter::Type::Void,
        index: 5,
        repr: adapter::Inst::Branch {
            cond: Some(int_const(1, 1)),
            targets: vec![0, 1],
        },
    };
    let got = ctx.parse_terminator(&inst).expect("branch should translate");
    assert_eq!(
        got,
        Terminator::Branch {
            cond: Value::Constant(Constant::Bitvec { bits: 1, value: 1 }),
            then_case: BlockLabel(0),
            else_case: BlockLabel(1),
        }
    );
}

#[test]
fn indirect_jump_is_an_enumerated_rejection() {
    let typing = empty_typing();
    let symbols = SymbolRegistry::empty();
    let mut ctx = fresh_context(&typing, &symbols, vec![0], vec![]);
    let inst = adapter::Instruction {
        name: None,
        ty: adapter::Type::Void,
        index: 0,
        repr: adapter::Inst::IndirectJump,
    };
    match ctx.parse_terminator(&inst) {
        Err(EngineError::NotSupportedYet(u)) => {
            assert_eq!(u, Unsupported::IndirectJump);
        }
        other => panic!("expected an indirect-jump rejection, got {:?}", other),
    }
}

#[test]
fn freeze_of_undef_bitvec_becomes_explicit_freeze() {
    let typing = empty_typing();
    let symbols = SymbolRegistry::empty();
    let mut ctx = fresh_context(&typing, &symbols, vec![0], vec![1]);
    let inst = adapter::Instruction {
        name: None,
        ty: adapter::Type::Int { width: 16 },
        index: 1,
        repr: adapter::Inst::Freeze {
            operand: adapter::Value::Constant(adapter::Constant {
                ty: adapter::Type::Int { width: 16 },
                repr: adapter::Const::Undef,
            }),
        },
    };
    let got = ctx.parse_instruction(&inst).expect("freeze should translate");
    assert_eq!(got, Instruction::FreezeBitvec { bits: 16 });
}

#[test]
fn freeze_of_ordinary_operand_is_a_nop() {
    let typing = empty_typing();
    let symbols = SymbolRegistry::empty();
    let mut ctx = fresh_context(&typing, &symbols, vec![0], vec![1]);
    let inst = adapter::Instruction {
        name: None,
        ty: adapter::Type::Int { width: 16 },
        index: 1,
        repr: adapter::Inst::Freeze {
            operand: int_const(16, 3),
        },
    };
    let got = ctx.parse_instruction(&inst).expect("freeze should translate");
    assert_eq!(
        got,
        Instruction::FreezeNop {
            value: Value::Constant(Constant::Bitvec { bits: 16, value: 3 })
        }
    );
}
