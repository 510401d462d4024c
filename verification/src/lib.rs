//! A semantic front-end that ingests a pre-parsed adapter representation of
//! LLVM IR and translates it into a strongly-typed, invariant-checked bridge
//! representation, accepting only a deliberately restricted subset of LLVM
//! semantics and rejecting everything else with an enumerated reason.

use vstd::prelude::*;

pub mod adapter;
pub mod cfg;
pub mod clang;
pub mod constant;
pub mod context;
pub mod deps;
pub mod error;
pub mod function;
pub mod instruction;
pub mod laws;
pub mod module;
pub mod shared;
pub mod translate;
pub mod typing;
pub mod value;

use crate::error::{EngineError, EngineResult, ErrorSpec};
use crate::function::Function;
use crate::module::Module;
use crate::shared::{Identifier, SymbolRegistry};
use crate::typing::{TypeRegistry, StructDefSpec, spec_build_registry};

verus! {

/// The names of a module's named functions, in declaration order, collected
/// into `acc`.
pub open spec fn spec_collect_symbols(
    funcs: Seq<adapter::FunctionSpec>,
    acc: Seq<Seq<char>>,
) -> Seq<Seq<char>>
    decreases funcs.len(),
{
    if funcs.len() == 0 {
        acc
    } else {
        let acc2 = match funcs[0].name {
            Option::Some(n) => acc.push(n),
            Option::None => acc,
        };
        spec_collect_symbols(funcs.subrange(1, funcs.len() as int), acc2)
    }
}

/// Converting every function of a module, failing on the first error.
pub open spec fn spec_convert_functions(
    reg: Seq<StructDefSpec>,
    syms: Seq<Seq<char>>,
    funcs: Seq<adapter::FunctionSpec>,
    acc: Seq<function::FunctionSpec>,
) -> Result<Seq<function::FunctionSpec>, ErrorSpec>
    decreases funcs.len(),
{
    if funcs.len() == 0 {
        Result::Ok(acc)
    } else {
        match function::spec_convert_function(reg, syms, funcs[0]) {
            Result::Err(e) => Result::Err(e),
            Result::Ok(f) => spec_convert_functions(
                reg,
                syms,
                funcs.subrange(1, funcs.len() as int),
                acc.push(f),
            ),
        }
    }
}

/// What translating a whole module yields: the module conversion, the type
/// registry built from the struct declarations, the symbol registry drawn
/// from the function names, and then every function converted in order.
pub open spec fn spec_analyze(
    m: adapter::ModuleSpec,
    decls: Seq<adapter::StructDeclSpec>,
    funcs: Seq<adapter::FunctionSpec>,
) -> Result<(Seq<char>, Seq<function::FunctionSpec>), ErrorSpec> {
    match module::spec_convert_module(m) {
        Result::Err(e) => Result::Err(e),
        Result::Ok(name) => match spec_build_registry(decls) {
            Result::Err(e) => Result::Err(e),
            Result::Ok(reg) => {
                let syms = spec_collect_symbols(funcs, Seq::empty());
                match spec_convert_functions(reg, syms, funcs, Seq::empty()) {
                    Result::Err(e) => Result::Err(e),
                    Result::Ok(fs) => Result::Ok((name, fs)),
                }
            }
        },
    }
}

/// Translate one adapter-form module, with its struct declarations and its
/// functions, into bridge form.  The first failure anywhere aborts the whole
/// translation; no partial result is ever produced.
#[verifier::loop_isolation(false)]
pub fn analyze(
    module: &adapter::Module,
    structs: &Vec<adapter::StructDecl>,
    functions: &Vec<adapter::Function>,
) -> (r: EngineResult<(Module, Vec<Function>)>)
    ensures
        ({
            let full = spec_analyze(
                module@,
                adapter::struct_decls_view(structs@),
                adapter::functions_view(functions@),
            );
            match r {
                Result::Ok(out) => full == Result::<
                    (Seq<char>, Seq<function::FunctionSpec>),
                    ErrorSpec,
                >::Ok((out.0@, Seq::new(out.1@.len(), |i: int| out.1@[i]@))),
                Result::Err(e) => full == Result::<
                    (Seq<char>, Seq<function::FunctionSpec>),
                    ErrorSpec,
                >::Err(e@),
            }
        }),
{
    let ghost fs = adapter::functions_view(functions@);
    let converted_module = match Module::convert(module) {
        Result::Err(e) => {
            return Result::Err(e);
        }
        Result::Ok(m) => m,
    };
    let typing = match TypeRegistry::build(structs) {
        Result::Err(e) => {
            return Result::Err(e);
        }
        Result::Ok(t) => t,
    };
    // the symbol registry holds every named function of the module
    let mut symbols = SymbolRegistry::empty();
    let n = functions.len();
    proof {
        assert(fs.subrange(0, fs.len() as int) =~= fs);
    }
    for i in 0..n
        invariant
            n == functions@.len(),
            spec_collect_symbols(fs, Seq::empty()) == spec_collect_symbols(
                fs.subrange(i as int, fs.len() as int),
                symbols@,
            ),
    {
        let ghost suffix = fs.subrange(i as int, fs.len() as int);
        proof {
            assert(suffix[0] == fs[i as int]);
            assert(fs[i as int] == functions@[i as int]@);
            assert(suffix.subrange(1, suffix.len() as int) =~= fs.subrange(
                i + 1,
                fs.len() as int,
            ));
        }
        match &functions[i].name {
            Option::None => {}
            Option::Some(name) => {
                symbols.add_function(Identifier::new(name.clone()));
            }
        }
    }
    proof {
        assert(fs.subrange(n as int, fs.len() as int).len() == 0);
    }
    // convert every function against the shared registries
    let mut out: Vec<Function> = Vec::new();
    proof {
        assert(Seq::new(out@.len(), |i: int| out@[i]@) =~= Seq::<function::FunctionSpec>::empty());
    }
    for i in 0..n
        invariant
            n == functions@.len(),
            spec_convert_functions(typing@, symbols@, fs, Seq::empty())
                == spec_convert_functions(
                typing@,
                symbols@,
                fs.subrange(i as int, fs.len() as int),
                Seq::new(out@.len(), |j: int| out@[j]@),
            ),
    {
        let ghost suffix = fs.subrange(i as int, fs.len() as int);
        proof {
            assert(suffix[0] == fs[i as int]);
            assert(fs[i as int] == functions@[i as int]@);
            assert(suffix.subrange(1, suffix.len() as int) =~= fs.subrange(
                i + 1,
                fs.len() as int,
            ));
        }
        match Function::convert(&functions[i], &typing, &symbols) {
            Result::Err(e) => {
                return Result::Err(e);
            }
            Result::Ok(f) => {
                let ghost prev = Seq::new(out@.len(), |j: int| out@[j]@);
                out.push(f);
                proof {
                    assert(Seq::new(out@.len(), |j: int| out@[j]@) =~= prev.push(out@.last()@));
                }
            }
        }
    }
    proof {
        assert(fs.subrange(n as int, fs.len() as int).len() == 0);
    }
    Result::Ok((converted_module, out))
}

} // verus!
