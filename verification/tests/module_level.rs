//! Tests of the module-level converters: module, function, registry,
//! constants, and the end-to-end translation.

use libra::adapter;
use libra::analyze;
use libra::constant::Constant;
use libra::error::{EngineError, Unsupported};
use libra::function::Function;
use libra::module::Module;
use libra::shared::{Identifier, SymbolRegistry};
use libra::typing::{Type, TypeRegistry, type_eq};

fn void_function_type() -> adapter::Type {
    adapter::Type::Function {
        params: vec![],
        ret: Box::new(adapter::Type::Void),
    }
}

fn return_nothing(index: usize) -> adapter::Instruction {
    adapter::Instruction {
        name: None,
        ty: adapter::Type::Void,
        index,
        repr: adapter::Inst::Return { value: None },
    }
}

fn defined_function(name: &str) -> adapter::Function {
    adapter::Function {
        name: Some(name.to_string()),
        ty: void_function_type(),
        is_defined: true,
        is_exact: true,
        is_intrinsic: false,
        params: vec![],
        blocks: vec![adapter::Block {
            label: 0,
            body: vec![return_nothing(0)],
        }],
    }
}

fn declared_function(name: &str) -> adapter::Function {
    adapter::Function {
        name: Some(name.to_string()),
        ty: void_function_type(),
        is_defined: false,
        is_exact: true,
        is_intrinsic: false,
        params: vec![],
        blocks: vec![],
    }
}

#[test]
fn module_with_assembly_is_rejected() {
    let m = adapter::Module {
        name: "m".to_string(),
        assembly: ".globl something".to_string(),
    };
    match Module::convert(&m) {
        Err(EngineError::NotSupportedYet(u)) => {
            assert_eq!(u, Unsupported::ModuleLevelAssembly);
        }
        other => panic!("expected a module-assembly rejection, got {:?}", other),
    }
}

#[test]
fn module_without_assembly_converts() {
    let m = adapter::Module {
        name: "m".to_string(),
        assembly: String::new(),
    };
    let got = Module::convert(&m).expect("module should convert");
    assert_eq!(got.name.as_str(), "m");
}

#[test]
fn supported_module_translates_every_function() {
    let m = adapter::Module {
        name: "demo".to_string(),
        assembly: String::new(),
    };
    let structs: Vec<adapter::StructDecl> = vec![];
    let functions = vec![defined_function("main_entry"), declared_function("helper")];
    let (module, outputs) = analyze(&m, &structs, &functions).expect("translation should succeed");
    assert_eq!(module.name.as_str(), "demo");
    assert_eq!(outputs.len(), 2);
    assert!(outputs[0].body.is_some());
    assert!(outputs[1].body.is_none());
    assert_eq!(outputs[0].name.as_str(), "main_entry");
    assert_eq!(outputs[1].name.as_str(), "helper");
}

#[test]
fn weak_function_is_rejected() {
    let mut f = defined_function("weakling");
    f.is_exact = false;
    let typing = TypeRegistry { structs: vec![] };
    let symbols = SymbolRegistry::empty();
    match Function::convert(&f, &typing, &symbols) {
        Err(EngineError::NotSupportedYet(u)) => {
            assert_eq!(u, Unsupported::WeakFunction);
        }
        other => panic!("expected a weak-function rejection, got {:?}", other),
    }
}

#[test]
fn anonymous_function_is_rejected() {
    let mut f = defined_function("soon_nameless");
    f.name = None;
    let typing = TypeRegistry { structs: vec![] };
    let symbols = SymbolRegistry::empty();
    match Function::convert(&f, &typing, &symbols) {
        Err(EngineError::InvalidAssumption(msg)) => {
            assert_eq!(msg, "no anonymous function");
        }
        other => panic!("expected an invalid-assumption error, got {:?}", other),
    }
}

#[test]
fn defined_function_with_no_block_is_rejected() {
    let mut f = defined_function("empty_body");
    f.blocks = vec![];
    let typing = TypeRegistry { structs: vec![] };
    let symbols = SymbolRegistry::empty();
    match Function::convert(&f, &typing, &symbols) {
        Err(EngineError::InvalidAssumption(msg)) => {
            assert_eq!(
                msg,
                "a defined function must have at least one basic block: empty_body"
            );
        }
        other => panic!("expected an invalid-assumption error, got {:?}", other),
    }
}

#[test]
fn defined_intrinsic_function_is_rejected() {
    let mut f = defined_function("fake_intrinsic");
    f.is_intrinsic = true;
    let typing = TypeRegistry { structs: vec![] };
    let symbols = SymbolRegistry::empty();
    match Function::convert(&f, &typing, &symbols) {
        Err(EngineError::InvalidAssumption(msg)) => {
            assert_eq!(msg, "a defined function cannot be an intrinsic: fake_intrinsic");
        }
        other => panic!("expected an invalid-assumption error, got {:?}", other),
    }
}

#[test]
fn parameter_count_mismatch_is_rejected() {
    let mut f = declared_function("short_handed");
    f.params = vec![adapter::Parameter {
        name: None,
        ty: adapter::Type::Int { width: 32 },
    }];
    let typing = TypeRegistry { structs: vec![] };
    let symbols = SymbolRegistry::empty();
    match Function::convert(&f, &typing, &symbols) {
        Err(EngineError::InvalidAssumption(msg)) => {
            assert_eq!(msg, "parameter count mismatch for function: short_handed");
        }
        other => panic!("expected an invalid-assumption error, got {:?}", other),
    }
}

#[test]
fn registry_deduplicates_structurally_identical_structs() {
    let decls = vec![
        adapter::StructDecl {
            name: "first".to_string(),
            fields: vec![adapter::Type::Int { width: 32 }],
        },
        adapter::StructDecl {
            name: "second".to_string(),
            fields: vec![adapter::Type::Int { width: 32 }],
        },
    ];
    let registry = TypeRegistry::build(&decls).expect("registry should build");
    let got = registry
        .convert(&adapter::Type::Named {
            name: "second".to_string(),
        })
        .expect("named reference should resolve");
    match got {
        Type::Struct { name, fields } => {
            // structurally identical structs collapse to the first name
            assert_eq!(name.map(|n| n.as_str().to_string()), Some("first".to_string()));
            assert_eq!(fields, vec![Type::Bitvec { bits: 32 }]);
        }
        other => panic!("expected a struct type, got {:?}", other),
    }
}

#[test]
fn unknown_named_struct_is_rejected() {
    let registry = TypeRegistry { structs: vec![] };
    match registry.convert(&adapter::Type::Named {
        name: "ghost_struct".to_string(),
    }) {
        Err(EngineError::InvalidAssumption(msg)) => {
            assert_eq!(msg, "unknown struct type name");
        }
        other => panic!("expected an invalid-assumption error, got {:?}", other),
    }
}

#[test]
fn duplicate_struct_declaration_is_rejected() {
    let decls = vec![
        adapter::StructDecl {
            name: "twice".to_string(),
            fields: vec![],
        },
        adapter::StructDecl {
            name: "twice".to_string(),
            fields: vec![],
        },
    ];
    match TypeRegistry::build(&decls) {
        Err(EngineError::InvalidAssumption(msg)) => {
            assert_eq!(msg, "duplicate struct type name");
        }
        other => panic!("expected an invalid-assumption error, got {:?}", other),
    }
}

#[test]
fn scalable_vector_type_is_an_enumerated_rejection() {
    let registry = TypeRegistry { structs: vec![] };
    match registry.convert(&adapter::Type::Vector {
        element: Box::new(adapter::Type::Int { width: 8 }),
        scalable: true,
        length: 4,
    }) {
        Err(EngineError::NotSupportedYet(u)) => {
            assert_eq!(u, Unsupported::ScalableVector);
        }
        other => panic!("expected a scalable-vector rejection, got {:?}", other),
    }
}

#[test]
fn vector_of_pointers_is_an_enumerated_rejection() {
    let registry = TypeRegistry { structs: vec![] };
    match registry.convert(&adapter::Type::Vector {
        element: Box::new(adapter::Type::Pointer {
            pointee: Box::new(adapter::Type::Int { width: 8 }),
            address_space: 0,
        }),
        scalable: false,
        length: 4,
    }) {
        Err(EngineError::NotSupportedYet(u)) => {
            assert_eq!(u, Unsupported::VectorOfPointers);
        }
        other => panic!("expected a vector-of-pointers rejection, got {:?}", other),
    }
}

#[test]
fn float_type_is_an_enumerated_rejection() {
    let registry = TypeRegistry { structs: vec![] };
    match registry.convert(&adapter::Type::Float {
        name: "double".to_string(),
    }) {
        Err(EngineError::NotSupportedYet(u)) => {
            assert_eq!(u, Unsupported::FloatingPoint);
        }
        other => panic!("expected a floating-point rejection, got {:?}", other),
    }
}

#[test]
fn pointer_in_nonzero_address_space_is_rejected() {
    let registry = TypeRegistry { structs: vec![] };
    match registry.convert(&adapter::Type::Pointer {
        pointee: Box::new(adapter::Type::Int { width: 8 }),
        address_space: 3,
    }) {
        Err(EngineError::NotSupportedYet(u)) => {
            assert_eq!(u, Unsupported::PointerAddressSpace);
        }
        other => panic!("expected an address-space rejection, got {:?}", other),
    }
}

#[test]
fn function_constant_must_name_a_known_symbol() {
    let typing = TypeRegistry { structs: vec![] };
    let mut symbols = SymbolRegistry::empty();
    symbols.add_function(Identifier::new("known_fn".to_string()));
    let known = adapter::Constant {
        ty: adapter::Type::Pointer {
            pointee: Box::new(adapter::Type::Int { width: 8 }),
            address_space: 0,
        },
        repr: adapter::Const::Function {
            name: "known_fn".to_string(),
        },
    };
    let got = Constant::convert(&known, &Type::Pointer, &typing, &symbols)
        .expect("known function constant should convert");
    match got {
        Constant::Function { name } => assert_eq!(name.as_str(), "known_fn"),
        other => panic!("expected a function constant, got {:?}", other),
    }
    let unknown = adapter::Constant {
        ty: adapter::Type::Pointer {
            pointee: Box::new(adapter::Type::Int { width: 8 }),
            address_space: 0,
        },
        repr: adapter::Const::Function {
            name: "ghost_fn".to_string(),
        },
    };
    match Constant::convert(&unknown, &Type::Pointer, &typing, &symbols) {
        Err(EngineError::InvalidAssumption(msg)) => {
            assert_eq!(msg, "unknown function name in constant");
        }
        other => panic!("expected an invalid-assumption error, got {:?}", other),
    }
}

#[test]
fn constant_type_must_match_expectation() {
    let typing = TypeRegistry { structs: vec![] };
    let symbols = SymbolRegistry::empty();
    let c = adapter::Constant {
        ty: adapter::Type::Int { width: 32 },
        repr: adapter::Const::Int { value: 9 },
    };
    match Constant::convert(&c, &Type::Bitvec { bits: 64 }, &typing, &symbols) {
        Err(EngineError::InvariantViolation(msg)) => {
            assert_eq!(msg, "constant type mismatch");
        }
        other => panic!("expected an invariant violation, got {:?}", other),
    }
}

#[test]
fn null_constant_converts_to_null_pointer() {
    let typing = TypeRegistry { structs: vec![] };
    let symbols = SymbolRegistry::empty();
    let c = adapter::Constant {
        ty: adapter::Type::Pointer {
            pointee: Box::new(adapter::Type::Int { width: 8 }),
            address_space: 0,
        },
        repr: adapter::Const::Null,
    };
    let got = Constant::convert(&c, &Type::Pointer, &typing, &symbols)
        .expect("null constant should convert");
    assert_eq!(got, Constant::NullPointer);
}

#[test]
fn structural_type_equality_sees_through_construction() {
    let a = Type::Struct {
        name: None,
        fields: vec![
            Type::Bitvec { bits: 32 },
            Type::Array {
                element: Box::new(Type::Pointer),
                length: 2,
            },
        ],
    };
    let b = Type::Struct {
        name: None,
        fields: vec![
            Type::Bitvec { bits: 32 },
            Type::Array {
                element: Box::new(Type::Pointer),
                length: 2,
            },
        ],
    };
    let c = Type::Struct {
        name: None,
        fields: vec![Type::Bitvec { bits: 32 }],
    };
    assert!(type_eq(&a, &b));
    assert!(!type_eq(&a, &c));
}

#[test]
fn error_display_forms_carry_category_tags() {
    let e1 = EngineError::CompilationError("clang failed".to_string());
    assert_eq!(e1.describe(), "[libra::compilation] clang failed");
    let e2 = EngineError::LLVMLoadingError("bad bitcode".to_string());
    assert_eq!(e2.describe(), "[libra::loading] bad bitcode");
    let e3 = EngineError::InvalidAssumption("odd shape".to_string());
    assert_eq!(e3.describe(), "[libra::assumption] odd shape");
    let e4 = EngineError::NotSupportedYet(Unsupported::AtomicInstruction);
    assert_eq!(e4.describe(), "[libra::unsupported] atomic instruction");
    let e5 = EngineError::InvariantViolation("broken contract".to_string());
    assert_eq!(e5.describe(), "[libra::invariant] broken contract");
}

#[test]
fn analyze_rejects_module_level_assembly_outright() {
    let m = adapter::Module {
        name: "asmful".to_string(),
        assembly: "nop".to_string(),
    };
    match analyze(&m, &vec![], &vec![]) {
        Err(EngineError::NotSupportedYet(u)) => {
            assert_eq!(u, Unsupported::ModuleLevelAssembly);
        }
        other => panic!("expected a module-assembly rejection, got {:?}", other),
    }
}

#[test]
fn analyze_fails_fast_on_a_bad_function() {
    let m = adapter::Module {
        name: "demo".to_string(),
        assembly: String::new(),
    };
    let mut bad = defined_function("bad_one");
    bad.blocks = vec![];
    let functions = vec![defined_function("fine"), bad];
    match analyze(&m, &vec![], &functions) {
        Err(EngineError::InvalidAssumption(msg)) => {
            assert_eq!(
                msg,
                "a defined function must have at least one basic block: bad_one"
            );
        }
        other => panic!("expected an invalid-assumption error, got {:?}", other),
    }
}

#[test]
fn atomic_load_in_a_body_yields_no_partial_function() {
    // an atomic load anywhere in a defined function aborts the whole build
    let m = adapter::Module {
        name: "demo".to_string(),
        assembly: String::new(),
    };
    let mut f = defined_function("touchy");
    f.blocks = vec![adapter::Block {
        label: 0,
        body: vec![
            adapter::Instruction {
                name: None,
                ty: adapter::Type::Int { width: 32 },
                index: 0,
                repr: adapter::Inst::Load {
                    pointee_type: adapter::Type::Int { width: 32 },
                    pointer: adapter::Value::Constant(adapter::Constant {
                        ty: adapter::Type::Pointer {
                            pointee: Box::new(adapter::Type::Int { width: 8 }),
                            address_space: 0,
                        },
                        repr: adapter::Const::Null,
                    }),
                    ordering: "acquire".to_string(),
                    address_space: 0,
                },
            },
            return_nothing(1),
        ],
    }];
    match analyze(&m, &vec![], &vec![f]) {
        Err(EngineError::NotSupportedYet(u)) => {
            assert_eq!(u, Unsupported::AtomicInstruction);
        }
        other => panic!("expected an atomic rejection, got {:?}", other),
    }
}

#[test]
fn self_referential_struct_resolves_through_its_pointer() {
    // a struct whose field points back to it converts without re-expansion
    let decls = vec![adapter::StructDecl {
        name: "node".to_string(),
        fields: vec![
            adapter::Type::Int { width: 64 },
            adapter::Type::Pointer {
                pointee: Box::new(adapter::Type::Named {
                    name: "node".to_string(),
                }),
                address_space: 0,
            },
        ],
    }];
    let registry = TypeRegistry::build(&decls).expect("registry should build");
    let got = registry
        .convert(&adapter::Type::Named {
            name: "node".to_string(),
        })
        .expect("self-referential struct should resolve");
    match got {
        Type::Struct { name, fields } => {
            assert_eq!(name.map(|n| n.as_str().to_string()), Some("node".to_string()));
            assert_eq!(fields, vec![Type::Bitvec { bits: 64 }, Type::Pointer]);
        }
        other => panic!("expected a struct type, got {:?}", other),
    }
}

#[test]
fn duplicate_instruction_indices_are_rejected() {
    let m = adapter::Module {
        name: "demo".to_string(),
        assembly: String::new(),
    };
    let mut f = defined_function("twinned");
    f.blocks = vec![adapter::Block {
        label: 0,
        body: vec![return_nothing(3), return_nothing(3)],
    }];
    match analyze(&m, &vec![], &vec![f]) {
        Err(EngineError::InvariantViolation(msg)) => {
            assert_eq!(msg, "duplicate instruction index");
        }
        other => panic!("expected an invariant violation, got {:?}", other),
    }
}

#[test]
fn empty_block_has_no_terminator_position() {
    let m = adapter::Module {
        name: "demo".to_string(),
        assembly: String::new(),
    };
    let mut f = defined_function("hollow");
    f.blocks = vec![adapter::Block {
        label: 0,
        body: vec![],
    }];
    match analyze(&m, &vec![], &vec![f]) {
        Err(EngineError::InvariantViolation(msg)) => {
            assert_eq!(msg, "malformed block without terminator");
        }
        other => panic!("expected an invariant violation, got {:?}", other),
    }
}

