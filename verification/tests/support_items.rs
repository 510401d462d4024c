//! Tests of the operator parsers and the dependency-state model.

use libra::deps::{DepState, Dependency, GitRepo, ResolverLLVM, Scratch, baseline_cmake_options};
use libra::error::{EngineError, Unsupported};
use libra::instruction::{BinaryOperator, ComparePredicate};
use libra::shared::{Identifier, SymbolRegistry, str_eq};

#[test]
fn binary_opcodes_parse_into_the_closed_set() {
    assert_eq!(BinaryOperator::parse("add").unwrap(), BinaryOperator::Add);
    assert_eq!(BinaryOperator::parse("sub").unwrap(), BinaryOperator::Sub);
    assert_eq!(BinaryOperator::parse("mul").unwrap(), BinaryOperator::Mul);
    // signedness collapses
    assert_eq!(BinaryOperator::parse("udiv").unwrap(), BinaryOperator::Div);
    assert_eq!(BinaryOperator::parse("sdiv").unwrap(), BinaryOperator::Div);
    assert_eq!(BinaryOperator::parse("urem").unwrap(), BinaryOperator::Mod);
    assert_eq!(BinaryOperator::parse("srem").unwrap(), BinaryOperator::Mod);
    assert_eq!(BinaryOperator::parse("shl").unwrap(), BinaryOperator::Shl);
    assert_eq!(BinaryOperator::parse("lshr").unwrap(), BinaryOperator::Shr);
    assert_eq!(BinaryOperator::parse("ashr").unwrap(), BinaryOperator::Shr);
    assert_eq!(BinaryOperator::parse("and").unwrap(), BinaryOperator::And);
    assert_eq!(BinaryOperator::parse("or").unwrap(), BinaryOperator::Or);
    assert_eq!(BinaryOperator::parse("xor").unwrap(), BinaryOperator::Xor);
}

#[test]
fn floating_point_binary_opcodes_are_enumerated_rejections() {
    for opcode in ["fadd", "fsub", "fmul", "fdiv", "frem"] {
        match BinaryOperator::parse(opcode) {
            Err(EngineError::NotSupportedYet(u)) => {
                assert_eq!(u, Unsupported::FloatingPoint);
            }
            other => panic!("expected a floating-point rejection, got {:?}", other),
        }
    }
}

#[test]
fn unknown_binary_opcode_breaks_the_input_assumption() {
    match BinaryOperator::parse("bogus") {
        Err(EngineError::InvalidAssumption(msg)) => {
            assert_eq!(msg, "unexpected binary opcode: bogus");
        }
        other => panic!("expected an invalid-assumption error, got {:?}", other),
    }
}

#[test]
fn compare_predicates_parse_into_the_closed_set() {
    assert_eq!(ComparePredicate::parse("i_eq").unwrap(), ComparePredicate::EQ);
    assert_eq!(ComparePredicate::parse("i_ne").unwrap(), ComparePredicate::NE);
    assert_eq!(ComparePredicate::parse("i_ugt").unwrap(), ComparePredicate::GT);
    assert_eq!(ComparePredicate::parse("i_sgt").unwrap(), ComparePredicate::GT);
    assert_eq!(ComparePredicate::parse("i_uge").unwrap(), ComparePredicate::GE);
    assert_eq!(ComparePredicate::parse("i_sge").unwrap(), ComparePredicate::GE);
    assert_eq!(ComparePredicate::parse("i_ult").unwrap(), ComparePredicate::LT);
    assert_eq!(ComparePredicate::parse("i_slt").unwrap(), ComparePredicate::LT);
    assert_eq!(ComparePredicate::parse("i_ule").unwrap(), ComparePredicate::LE);
    assert_eq!(ComparePredicate::parse("i_sle").unwrap(), ComparePredicate::LE);
}

#[test]
fn floating_point_predicates_are_enumerated_rejections() {
    for predicate in ["f_oeq", "f_ult", "f_t", "f_f", "f_uno"] {
        match ComparePredicate::parse(predicate) {
            Err(EngineError::NotSupportedYet(u)) => {
                assert_eq!(u, Unsupported::FloatingPoint);
            }
            other => panic!("expected a floating-point rejection, got {:?}", other),
        }
    }
}

#[test]
fn unknown_compare_predicate_breaks_the_input_assumption() {
    match ComparePredicate::parse("i_weird") {
        Err(EngineError::InvalidAssumption(msg)) => {
            assert_eq!(msg, "unexpected compare predicate: i_weird");
        }
        other => panic!("expected an invalid-assumption error, got {:?}", other),
    }
}

#[test]
fn identifiers_compare_by_text() {
    let a = Identifier::new("alpha".to_string());
    let b = Identifier::new("alpha".to_string());
    let c = Identifier::new("beta".to_string());
    assert!(a.matches(&b));
    assert!(!a.matches(&c));
    assert_eq!(a.as_str(), "alpha");
    assert_eq!(a.duplicate().as_str(), "alpha");
}

#[test]
fn symbol_registry_finds_only_registered_names() {
    let mut symbols = SymbolRegistry::empty();
    symbols.add_function(Identifier::new("one".to_string()));
    symbols.add_function(Identifier::new("two".to_string()));
    assert!(symbols.has_function(&Identifier::new("one".to_string())));
    assert!(symbols.has_function(&Identifier::new("two".to_string())));
    assert!(!symbols.has_function(&Identifier::new("three".to_string())));
}

#[test]
fn string_equality_is_by_content() {
    assert!(str_eq("not_atomic", "not_atomic"));
    assert!(!str_eq("not_atomic", "acquire"));
    assert!(!str_eq("", "acquire"));
    assert!(str_eq("", ""));
}

#[test]
fn llvm_resolver_lays_out_build_and_install_trees() {
    let resolver = ResolverLLVM::construct("/studio/llvm/abc123".to_string());
    assert_eq!(resolver.path_build(), "/studio/llvm/abc123/build");
    assert_eq!(resolver.path_install(), "/studio/llvm/abc123/install");
    assert_eq!(resolver.destruct(), "/studio/llvm/abc123");
}

#[test]
fn baseline_cmake_options_are_stable() {
    let options = baseline_cmake_options();
    assert_eq!(options.len(), 8);
    assert_eq!(options[0], "-DCMAKE_BUILD_TYPE=Debug");
    assert_eq!(
        options[2],
        "-DLLVM_ENABLE_PROJECTS=clang;clang-tools-extra;libc;lld;lldb;polly"
    );
    assert_eq!(options[7], "-DCLANG_DEFAULT_CXX_STDLIB=libc++");
}

struct RecordedBuild;

impl Dependency for RecordedBuild {
    fn repo_path_from_root() -> Vec<String> {
        vec!["deps".to_string(), "recorded".to_string()]
    }

    fn list_build_options(_path_src: &String, _path_build: &String) -> Result<(), String> {
        Ok(())
    }

    fn build(
        _path_src: &String,
        _path_build: &String,
        _path_install: Option<&String>,
    ) -> Result<(), String> {
        Ok(())
    }
}

struct FailingBuild;

impl Dependency for FailingBuild {
    fn repo_path_from_root() -> Vec<String> {
        vec!["deps".to_string(), "failing".to_string()]
    }

    fn list_build_options(_path_src: &String, _path_build: &String) -> Result<(), String> {
        Err("configure failed".to_string())
    }

    fn build(
        _path_src: &String,
        _path_build: &String,
        _path_install: Option<&String>,
    ) -> Result<(), String> {
        Err("build failed".to_string())
    }
}

#[test]
fn existing_artifact_means_package_ready() {
    let repo = GitRepo::new("/root/deps/recorded".to_string(), "abc".to_string());
    let state: DepState<RecordedBuild> =
        DepState::new(repo, "/studio/deps/recorded/abc".to_string(), true);
    match state {
        DepState::Package(p) => {
            assert_eq!(p.artifact_path(), "/studio/deps/recorded/abc");
            assert_eq!(p.git_repo().commit(), "abc");
        }
        DepState::Scratch(_) => panic!("expected the package-ready state"),
    }
}

#[test]
fn missing_artifact_means_scratch_and_make_packages_it() {
    let repo = GitRepo::new("/root/deps/recorded".to_string(), "abc".to_string());
    let state: DepState<RecordedBuild> =
        DepState::new(repo, "/studio/deps/recorded/abc".to_string(), false);
    let scratch = match state {
        DepState::Scratch(s) => s,
        DepState::Package(_) => panic!("expected the from-scratch state"),
    };
    let package = scratch.make(None).expect("build should succeed");
    assert_eq!(package.artifact_path(), "/studio/deps/recorded/abc");
    assert_eq!(package.git_repo().path(), "/root/deps/recorded");
}

#[test]
fn failing_build_surfaces_the_implementors_error() {
    let repo = GitRepo::new("/root/deps/failing".to_string(), "def".to_string());
    let scratch: Scratch<FailingBuild> = Scratch {
        repo,
        artifact: "/studio/deps/failing/def".to_string(),
        _phantom: std::marker::PhantomData,
    };
    match scratch.make(None) {
        Err(msg) => assert_eq!(msg, "build failed"),
        Ok(_) => panic!("expected the build to fail"),
    }
}
