//! The function converter: signature, parameters, and the optional body.
//! A declared-only function carries no body; a defined function must have at
//! least one block and must not also be an intrinsic.

use vstd::prelude::*;
use vstd::string::StringExecFns;

use crate::adapter;
use crate::cfg::{BasicBlockSpec, ControlFlowGraph, spec_build_cfg};
use crate::error::{EngineError, EngineResult, ErrorSpec, Unsupported, result_view};
use crate::shared::{Identifier, SymbolRegistry};
use crate::typing::{Type, TypeSpec, TypeRegistry, StructDefSpec, spec_convert_type, type_eq,
    type_dup, types_view};

verus! {

/// A bridge-form function.
#[derive(Debug, PartialEq, Eq)]
pub struct Function {
    /// function name
    pub name: Identifier,
    /// parameter definitions
    pub params: Vec<(Option<Identifier>, Type)>,
    /// return type
    pub ret: Option<Type>,
    /// body of the function (in terms of a CFG); none for a declaration
    pub body: Option<ControlFlowGraph>,
}

/// Mathematical model of a bridge-form function.
#[verifier::ext_equal]
pub struct FunctionSpec {
    pub name: Seq<char>,
    pub params: Seq<(Option<Seq<char>>, TypeSpec)>,
    pub ret: Option<TypeSpec>,
    pub body: Option<Seq<BasicBlockSpec>>,
}

pub open spec fn opt_name_view(o: Option<Identifier>) -> Option<Seq<char>> {
    match o {
        Option::None => Option::None,
        Option::Some(id) => Option::Some(id@),
    }
}

impl View for Function {
    type V = FunctionSpec;

    open spec fn view(&self) -> FunctionSpec {
        FunctionSpec {
            name: self.name@,
            params: Seq::new(
                self.params@.len(),
                |i: int| (opt_name_view(self.params@[i].0), self.params@[i].1@),
            ),
            ret: match self.ret {
                Option::None => Option::None,
                Option::Some(t) => Option::Some(t@),
            },
            body: match self.body {
                Option::None => Option::None,
                Option::Some(cfg) => Option::Some(cfg@),
            },
        }
    }
}

/// Converting the declared parameter list: each parameter's own type must
/// convert to exactly the matching signature type.
pub open spec fn spec_convert_params(
    reg: Seq<StructDefSpec>,
    params: Seq<adapter::ParameterSpec>,
    param_tys: Seq<TypeSpec>,
    name: Seq<char>,
    acc: Seq<(Option<Seq<char>>, TypeSpec)>,
) -> Result<Seq<(Option<Seq<char>>, TypeSpec)>, ErrorSpec>
    decreases params.len(),
{
    if params.len() == 0 {
        Result::Ok(acc)
    } else {
        match spec_convert_type(reg, params[0].ty) {
            Result::Err(e) => Result::Err(e),
            Result::Ok(pt) => {
                if pt != param_tys[0] {
                    Result::Err(
                        ErrorSpec::InvalidAssumption(
                            "parameter type mismatch for function: "@ + name,
                        ),
                    )
                } else {
                    spec_convert_params(
                        reg,
                        params.subrange(1, params.len() as int),
                        param_tys.subrange(1, param_tys.len() as int),
                        name,
                        acc.push((params[0].name, param_tys[0])),
                    )
                }
            }
        }
    }
}

/// What converting one adapter-form function yields: weak functions and
/// anonymous functions are rejected; the signature must be a function type
/// whose parameters match the declared parameter list; a defined function
/// needs at least one block, must not be an intrinsic, and gets a built CFG.
pub open spec fn spec_convert_function(
    reg: Seq<StructDefSpec>,
    syms: Seq<Seq<char>>,
    f: adapter::FunctionSpec,
) -> Result<FunctionSpec, ErrorSpec> {
    if !f.is_exact {
        Result::Err(ErrorSpec::NotSupportedYet(Unsupported::WeakFunction))
    } else {
        match f.name {
            Option::None => Result::Err(ErrorSpec::InvalidAssumption("no anonymous function"@)),
            Option::Some(name) => match spec_convert_type(reg, f.ty) {
                Result::Err(e) => Result::Err(e),
                Result::Ok(func_ty) => match func_ty {
                    TypeSpec::Function { params: param_tys, ret } => {
                        if f.params.len() != param_tys.len() {
                            Result::Err(
                                ErrorSpec::InvalidAssumption(
                                    "parameter count mismatch for function: "@ + name,
                                ),
                            )
                        } else {
                            match spec_convert_params(
                                reg,
                                f.params,
                                param_tys,
                                name,
                                Seq::empty(),
                            ) {
                                Result::Err(e) => Result::Err(e),
                                Result::Ok(params_new) => {
                                    let ret_ty = match ret {
                                        Option::None => Option::None,
                                        Option::Some(b) => Option::Some(*b),
                                    };
                                    if f.is_defined {
                                        if f.blocks.len() == 0 {
                                            Result::Err(
                                                ErrorSpec::InvalidAssumption(
                                                    "a defined function must have at least one basic block: "@
                                                        + name,
                                                ),
                                            )
                                        } else if f.is_intrinsic {
                                            Result::Err(
                                                ErrorSpec::InvalidAssumption(
                                                    "a defined function cannot be an intrinsic: "@
                                                        + name,
                                                ),
                                            )
                                        } else {
                                            match spec_build_cfg(
                                                reg,
                                                syms,
                                                param_tys,
                                                ret_ty,
                                                f.blocks,
                                            ) {
                                                Result::Err(e) => Result::Err(e),
                                                Result::Ok(cfg) => Result::Ok(
                                                    FunctionSpec {
                                                        name,
                                                        params: params_new,
                                                        ret: ret_ty,
                                                        body: Option::Some(cfg),
                                                    },
                                                ),
                                            }
                                        }
                                    } else {
                                        Result::Ok(
                                            FunctionSpec {
                                                name,
                                                params: params_new,
                                                ret: ret_ty,
                                                body: Option::None,
                                            },
                                        )
                                    }
                                }
                            }
                        }
                    }
                    _ => Result::Err(
                        ErrorSpec::InvalidAssumption("invalid signature for function: "@ + name),
                    ),
                },
            },
        }
    }
}

impl Function {
    /// Convert one adapter-form function against the module's registries.
    #[verifier::loop_isolation(false)]
    #[verifier::rlimit(60)]
    pub fn convert(
        func: &adapter::Function,
        typing: &TypeRegistry,
        symbols: &SymbolRegistry,
    ) -> (r: EngineResult<Self>)
        ensures
            result_view(r) == spec_convert_function(typing@, symbols@, func@),
    {
        // filter out unsupported cases
        if !func.is_exact {
            return Result::Err(EngineError::NotSupportedYet(Unsupported::WeakFunction));
        }
        // convert the name
        let ident: Identifier = match &func.name {
            Option::None => {
                return Result::Err(
                    EngineError::InvalidAssumption("no anonymous function".to_owned()),
                );
            }
            Option::Some(n) => Identifier::new(n.clone()),
        };
        // convert the signature
        let func_ty = match typing.convert(&func.ty) {
            Result::Err(e) => {
                return Result::Err(e);
            }
            Result::Ok(t) => t,
        };
        let (param_tys, ret_ty): (Vec<Type>, Option<Type>) = match func_ty {
            Type::Function { params, ret } => {
                let r = match ret {
                    Option::None => Option::None,
                    Option::Some(b) => Option::Some(*b),
                };
                (params, r)
            }
            _ => {
                proof {
                    assert(!(spec_convert_type(typing@, func.ty@)->Ok_0 is Function));
                }
                let mut msg = "invalid signature for function: ".to_owned();
                msg.append(ident.as_str());
                return Result::Err(EngineError::InvalidAssumption(msg));
            }
        };
        proof {
            assert(types_view(param_tys@) == spec_convert_type(
                typing@,
                func.ty@,
            )->Ok_0->Function_params);
        }
        // convert parameters
        if func.params.len() != param_tys.len() {
            let mut msg = "parameter count mismatch for function: ".to_owned();
            msg.append(ident.as_str());
            return Result::Err(EngineError::InvalidAssumption(msg));
        }
        let ghost ps = adapter::parameters_view(func.params@);
        let ghost pts = types_view(param_tys@);
        let mut params_new: Vec<(Option<Identifier>, Type)> = Vec::new();
        let pn = func.params.len();
        proof {
            assert(ps.subrange(0, ps.len() as int) =~= ps);
            assert(pts.subrange(0, pts.len() as int) =~= pts);
            assert(Seq::new(
                params_new@.len(),
                |i: int| (opt_name_view(params_new@[i].0), params_new@[i].1@),
            ) =~= Seq::<(Option<Seq<char>>, TypeSpec)>::empty());
        }
        for i in 0..pn
            invariant
                pn == func.params@.len(),
                pn == param_tys@.len(),
                params_new@.len() == i,
                forall|j: int| 0 <= j < i ==> params_new@[j].1@ == pts[j],
                spec_convert_params(typing@, ps, pts, ident@, Seq::empty())
                    == spec_convert_params(
                    typing@,
                    ps.subrange(i as int, ps.len() as int),
                    pts.subrange(i as int, pts.len() as int),
                    ident@,
                    Seq::new(
                        params_new@.len(),
                        |j: int| (opt_name_view(params_new@[j].0), params_new@[j].1@),
                    ),
                ),
        {
            let ghost psuf = ps.subrange(i as int, ps.len() as int);
            let ghost tsuf = pts.subrange(i as int, pts.len() as int);
            proof {
                assert(psuf[0] == ps[i as int]);
                assert(ps[i as int] == func.params@[i as int]@);
                assert(tsuf[0] == pts[i as int]);
                assert(pts[i as int] == param_tys@[i as int]@);
                assert(psuf.subrange(1, psuf.len() as int) =~= ps.subrange(
                    i + 1,
                    ps.len() as int,
                ));
                assert(tsuf.subrange(1, tsuf.len() as int) =~= pts.subrange(
                    i + 1,
                    pts.len() as int,
                ));
            }
            let p = &func.params[i];
            let pt = match typing.convert(&p.ty) {
                Result::Err(e) => {
                    return Result::Err(e);
                }
                Result::Ok(t) => t,
            };
            if !type_eq(&pt, &param_tys[i]) {
                let mut msg = "parameter type mismatch for function: ".to_owned();
                msg.append(ident.as_str());
                return Result::Err(EngineError::InvalidAssumption(msg));
            }
            let pname = match &p.name {
                Option::None => Option::None,
                Option::Some(n) => Option::Some(Identifier::new(n.clone())),
            };
            let t = type_dup(&param_tys[i]);
            let ghost prev = Seq::new(
                params_new@.len(),
                |j: int| (opt_name_view(params_new@[j].0), params_new@[j].1@),
            );
            params_new.push((pname, t));
            proof {
                assert(Seq::new(
                    params_new@.len(),
                    |j: int| (opt_name_view(params_new@[j].0), params_new@[j].1@),
                ) =~= prev.push((ps[i as int].name, pts[i as int])));
            }
        }
        proof {
            assert(ps.subrange(pn as int, ps.len() as int).len() == 0);
            assert(pts.subrange(pn as int, pts.len() as int).len() == 0);
        }
        // build the body for defined functions only
        let body = if func.is_defined {
            if func.blocks.len() == 0 {
                let mut msg = "a defined function must have at least one basic block: ".to_owned();
                msg.append(ident.as_str());
                return Result::Err(EngineError::InvalidAssumption(msg));
            }
            if func.is_intrinsic {
                let mut msg = "a defined function cannot be an intrinsic: ".to_owned();
                msg.append(ident.as_str());
                return Result::Err(EngineError::InvalidAssumption(msg));
            }
            let ret_ref = match &ret_ty {
                Option::None => Option::None,
                Option::Some(t) => Option::Some(t),
            };
            proof {
                assert(Seq::new(params_new@.len(), |i: int| params_new@[i].1@) =~= pts);
            }
            match ControlFlowGraph::build(typing, symbols, &params_new, ret_ref, &func.blocks) {
                Result::Err(e) => {
                    return Result::Err(e);
                }
                Result::Ok(cfg) => Option::Some(cfg),
            }
        } else {
            Option::None
        };
        // done with the construction
        let out = Function { name: ident, params: params_new, ret: ret_ty, body };
        proof {
            assert(result_view(Result::<Function, EngineError>::Ok(out))
                =~= spec_convert_function(typing@, symbols@, func@));
        }
        Result::Ok(out)
    }
}

} // verus!
