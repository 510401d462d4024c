//! The bridge-form type vocabulary and the per-module type registry.
//!
//! Pointers are untyped (opaque) in bridge form: a deliberate simplification
//! versus the adapter form's typed pointers.  Named struct types are resolved
//! once per module through the registry, by name identity, and structurally
//! identical named structs are deduplicated to the first declared name.

use vstd::prelude::*;

use crate::adapter;
use crate::error::{EngineError, EngineResult, ErrorSpec, Unsupported, result_view};
use crate::shared::Identifier;

verus! {

/// A bridge-form type.
#[derive(Debug, PartialEq, Eq)]
pub enum Type {
    /// the void type, only meaningful as an instruction annotation
    Void,
    /// a bit-vector with a known width
    Bitvec { bits: usize },
    /// an opaque pointer
    Pointer,
    /// a fixed-length array
    Array { element: Box<Type>, length: usize },
    /// a struct, named when it comes from a module-level declaration
    Struct { name: Option<Identifier>, fields: Vec<Type> },
    /// a function signature
    Function { params: Vec<Type>, ret: Option<Box<Type>> },
}

/// Mathematical model of a bridge-form type.
#[verifier::ext_equal]
pub enum TypeSpec {
    Void,
    Bitvec { bits: nat },
    Pointer,
    Array { element: Box<TypeSpec>, length: nat },
    Struct { name: Option<Seq<char>>, fields: Seq<TypeSpec> },
    Function { params: Seq<TypeSpec>, ret: Option<Box<TypeSpec>> },
}

pub open spec fn type_view(t: Type) -> TypeSpec
    decreases t,
    via type_view_dec
{
    match t {
        Type::Void => TypeSpec::Void,
        Type::Bitvec { bits } => TypeSpec::Bitvec { bits: bits as nat },
        Type::Pointer => TypeSpec::Pointer,
        Type::Array { element, length } => TypeSpec::Array {
            element: Box::new(type_view(*element)),
            length: length as nat,
        },
        Type::Struct { name, fields } => TypeSpec::Struct {
            name: match name {
                Option::None => Option::None,
                Option::Some(id) => Option::Some(id@),
            },
            fields: types_view(fields@),
        },
        Type::Function { params, ret } => TypeSpec::Function {
            params: types_view(params@),
            ret: match ret {
                Option::None => Option::None,
                Option::Some(b) => Option::Some(Box::new(type_view(*b))),
            },
        },
    }
}

pub open spec fn types_view(s: Seq<Type>) -> Seq<TypeSpec>
    decreases s,
    via types_view_dec
{
    Seq::new(
        s.len(),
        |i: int|
            if 0 <= i < s.len() {
                type_view(s[i])
            } else {
                TypeSpec::Void
            },
    )
}

#[via_fn]
proof fn type_view_dec(t: Type) {
    match t {
        Type::Struct { name, fields } => {
            assert(decreases_to!(t => fields));
            assert(decreases_to!(fields => fields@));
        }
        Type::Function { params, ret } => {
            assert(decreases_to!(t => params));
            assert(decreases_to!(params => params@));
            match ret {
                Option::Some(b) => {
                    assert(decreases_to!(t => ret));
                    assert(decreases_to!(ret => b));
                }
                Option::None => {}
            }
        }
        _ => {}
    }
}

#[via_fn]
proof fn types_view_dec(s: Seq<Type>) {
    assert forall|i: int| 0 <= i < s.len() implies decreases_to!(s => s[i]) by {
        assert(decreases_to!(s => s[i]));
    }
}

impl View for Type {
    type V = TypeSpec;

    open spec fn view(&self) -> TypeSpec {
        type_view(*self)
    }
}

/// Structural equality of two bridge types, decided executably.
pub fn type_eq(a: &Type, b: &Type) -> (r: bool)
    ensures
        r == (a@ == b@),
    decreases a,
{
    match (a, b) {
        (Type::Void, Type::Void) => true,
        (Type::Bitvec { bits: x }, Type::Bitvec { bits: y }) => x == y,
        (Type::Pointer, Type::Pointer) => true,
        (Type::Array { element: e1, length: l1 }, Type::Array { element: e2, length: l2 }) => {
            l1 == l2 && type_eq(e1, e2)
        }
        (Type::Struct { name: n1, fields: f1 }, Type::Struct { name: n2, fields: f2 }) => {
            let names_ok = match (n1, n2) {
                (Option::None, Option::None) => true,
                (Option::Some(x), Option::Some(y)) => x.matches(y),
                _ => false,
            };
            if !names_ok {
                return false;
            }
            proof {
                assert(decreases_to!(*a => (*a)->Struct_fields));
                assert((*a)->Struct_fields == *f1);
            }
            types_eq(f1, f2)
        }
        (Type::Function { params: p1, ret: r1 }, Type::Function { params: p2, ret: r2 }) => {
            proof {
                assert(decreases_to!(*a => (*a)->Function_params));
                assert((*a)->Function_params == *p1);
            }
            if !types_eq(p1, p2) {
                return false;
            }
            match (r1, r2) {
                (Option::None, Option::None) => true,
                (Option::Some(x), Option::Some(y)) => type_eq(x, y),
                _ => {
                    assert(a@->Function_ret is Some <==> *r1 is Some);
                    false
                }
            }
        }
        _ => false,
    }
}

/// Structural equality of two lists of bridge types.
pub fn types_eq(x: &Vec<Type>, y: &Vec<Type>) -> (r: bool)
    ensures
        r == (types_view(x@) == types_view(y@)),
    decreases x,
{
    if x.len() != y.len() {
        assert(types_view(x@).len() != types_view(y@).len());
        return false;
    }
    let n = x.len();
    for i in 0..n
        invariant
            n == x@.len(),
            n == y@.len(),
            forall|j: int| 0 <= j < i ==> type_view(x@[j]) == type_view(y@[j]),
    {
        proof {
            assert(decreases_to!(*x => x@));
            assert(decreases_to!(x@ => x@[i as int]));
        }
        if !type_eq(&x[i], &y[i]) {
            assert(types_view(x@)[i as int] != types_view(y@)[i as int]);
            return false;
        }
    }
    proof {
        assert(types_view(x@) =~= types_view(y@));
    }
    true
}

/// A deep copy of a bridge type, equal to the original in its view.
pub fn type_dup(t: &Type) -> (r: Type)
    ensures
        r@ == t@,
    decreases t,
{
    match t {
        Type::Void => Type::Void,
        Type::Bitvec { bits } => Type::Bitvec { bits: *bits },
        Type::Pointer => Type::Pointer,
        Type::Array { element, length } => Type::Array {
            element: Box::new(type_dup(element)),
            length: *length,
        },
        Type::Struct { name, fields } => {
            let new_name = match name {
                Option::None => Option::None,
                Option::Some(id) => Option::Some(id.duplicate()),
            };
            proof {
                assert(decreases_to!(*t => (*t)->Struct_fields));
                assert((*t)->Struct_fields == *fields);
            }
            let new_fields = types_dup(fields);
            Type::Struct { name: new_name, fields: new_fields }
        }
        Type::Function { params, ret } => {
            proof {
                assert(decreases_to!(*t => (*t)->Function_params));
                assert((*t)->Function_params == *params);
            }
            let new_params = types_dup(params);
            let new_ret = match ret {
                Option::None => Option::None,
                Option::Some(b) => Option::Some(Box::new(type_dup(b))),
            };
            Type::Function { params: new_params, ret: new_ret }
        }
    }
}

/// A deep copy of a list of bridge types.
pub fn types_dup(x: &Vec<Type>) -> (r: Vec<Type>)
    ensures
        types_view(r@) == types_view(x@),
    decreases x,
{
    let n = x.len();
    let mut out: Vec<Type> = Vec::new();
    for i in 0..n
        invariant
            n == x@.len(),
            out@.len() == i,
            forall|j: int| 0 <= j < i ==> type_view(out@[j]) == type_view(x@[j]),
    {
        proof {
            assert(decreases_to!(*x => x@));
            assert(decreases_to!(x@ => x@[i as int]));
        }
        let d = type_dup(&x[i]);
        out.push(d);
    }
    proof {
        assert(types_view(out@) =~= types_view(x@));
    }
    out
}

/// One resolved struct definition held by the registry.
#[derive(Debug, PartialEq, Eq)]
pub struct StructDef {
    pub name: Identifier,
    pub fields: Vec<Type>,
}

/// Mathematical model of a resolved struct definition.
#[verifier::ext_equal]
pub struct StructDefSpec {
    pub name: Seq<char>,
    pub fields: Seq<TypeSpec>,
}

impl View for StructDef {
    type V = StructDefSpec;

    open spec fn view(&self) -> StructDefSpec {
        StructDefSpec { name: self.name@, fields: types_view(self.fields@) }
    }
}

/// The first registry entry carrying the given name, scanning from the front.
pub open spec fn find_by_name(reg: Seq<StructDefSpec>, name: Seq<char>) -> Option<StructDefSpec>
    decreases reg.len(),
{
    if reg.len() == 0 {
        Option::None
    } else if reg[0].name == name {
        Option::Some(reg[0])
    } else {
        find_by_name(reg.subrange(1, reg.len() as int), name)
    }
}

/// The first registry entry with structurally identical fields, scanning from
/// the front; this is the deduplication rule for named structs.
pub open spec fn find_by_fields(reg: Seq<StructDefSpec>, fields: Seq<TypeSpec>) -> Option<
    StructDefSpec,
>
    decreases reg.len(),
{
    if reg.len() == 0 {
        Option::None
    } else if reg[0].fields == fields {
        Option::Some(reg[0])
    } else {
        find_by_fields(reg.subrange(1, reg.len() as int), fields)
    }
}

/// What converting one adapter-form type yields: the bridge type, or the
/// enumerated reason the shape is outside the subset.
pub open spec fn spec_convert_type(reg: Seq<StructDefSpec>, t: adapter::TypeSpec) -> Result<
    TypeSpec,
    ErrorSpec,
>
    decreases t,
    via spec_convert_type_dec
{
    match t {
        adapter::TypeSpec::Void => Result::Ok(TypeSpec::Void),
        adapter::TypeSpec::Int { width } => Result::Ok(TypeSpec::Bitvec { bits: width }),
        adapter::TypeSpec::Float { .. } => Result::Err(
            ErrorSpec::NotSupportedYet(Unsupported::FloatingPoint),
        ),
        adapter::TypeSpec::Pointer { pointee, address_space } => {
            if address_space != 0 {
                Result::Err(ErrorSpec::NotSupportedYet(Unsupported::PointerAddressSpace))
            } else {
                Result::Ok(TypeSpec::Pointer)
            }
        }
        adapter::TypeSpec::Array { element, length } => {
            match spec_convert_type(reg, *element) {
                Result::Err(e) => Result::Err(e),
                Result::Ok(elem) => Result::Ok(
                    TypeSpec::Array { element: Box::new(elem), length },
                ),
            }
        }
        adapter::TypeSpec::Struct { fields } => {
            match spec_convert_types(reg, fields) {
                Result::Err(e) => Result::Err(e),
                Result::Ok(fs) => Result::Ok(TypeSpec::Struct { name: Option::None, fields: fs }),
            }
        }
        adapter::TypeSpec::Named { name } => {
            match find_by_name(reg, name) {
                Option::None => Result::Err(
                    ErrorSpec::InvalidAssumption("unknown struct type name"@),
                ),
                Option::Some(def) => match find_by_fields(reg, def.fields) {
                    Option::None => Result::Err(
                        ErrorSpec::InvariantViolation("struct deduplication missed itself"@),
                    ),
                    Option::Some(canon) => Result::Ok(
                        TypeSpec::Struct { name: Option::Some(canon.name), fields: def.fields },
                    ),
                },
            }
        }
        adapter::TypeSpec::Function { params, ret } => {
            match spec_convert_types(reg, params) {
                Result::Err(e) => Result::Err(e),
                Result::Ok(ps) => {
                    if *ret is Void {
                        Result::Ok(TypeSpec::Function { params: ps, ret: Option::None })
                    } else {
                        match spec_convert_type(reg, *ret) {
                            Result::Err(e) => Result::Err(e),
                            Result::Ok(rt) => Result::Ok(
                                TypeSpec::Function { params: ps, ret: Option::Some(Box::new(rt)) },
                            ),
                        }
                    }
                }
            }
        }
        adapter::TypeSpec::Vector { element, scalable, length } => {
            if scalable {
                Result::Err(ErrorSpec::NotSupportedYet(Unsupported::ScalableVector))
            } else if *element is Pointer {
                Result::Err(ErrorSpec::NotSupportedYet(Unsupported::VectorOfPointers))
            } else {
                Result::Err(ErrorSpec::InvalidAssumption("unexpected vector type"@))
            }
        }
        adapter::TypeSpec::Label => Result::Err(
            ErrorSpec::InvalidAssumption("unexpected label type"@),
        ),
        adapter::TypeSpec::Metadata => Result::Err(
            ErrorSpec::InvalidAssumption("unexpected metadata type"@),
        ),
        adapter::TypeSpec::Token => Result::Err(
            ErrorSpec::InvalidAssumption("unexpected token type"@),
        ),
    }
}

/// Converting a list of adapter-form types, failing on the first error.
pub open spec fn spec_convert_types(reg: Seq<StructDefSpec>, s: Seq<adapter::TypeSpec>) -> Result<
    Seq<TypeSpec>,
    ErrorSpec,
>
    decreases s,
    via spec_convert_types_dec
{
    if s.len() == 0 {
        Result::Ok(Seq::empty())
    } else {
        match spec_convert_type(reg, s[0]) {
            Result::Err(e) => Result::Err(e),
            Result::Ok(h) => match spec_convert_types(reg, s.subrange(1, s.len() as int)) {
                Result::Err(e) => Result::Err(e),
                Result::Ok(rest) => Result::Ok(seq![h] + rest),
            },
        }
    }
}

#[via_fn]
proof fn spec_convert_type_dec(reg: Seq<StructDefSpec>, t: adapter::TypeSpec) {
    match t {
        adapter::TypeSpec::Struct { fields } => {
            assert(decreases_to!(t => fields));
        }
        adapter::TypeSpec::Function { params, ret } => {
            assert(decreases_to!(t => params));
            assert(decreases_to!(t => ret));
        }
        _ => {}
    }
}

#[via_fn]
proof fn spec_convert_types_dec(reg: Seq<StructDefSpec>, s: Seq<adapter::TypeSpec>) {
    if s.len() > 0 {
        assert(decreases_to!(s => s[0]));
        assert(decreases_to!(s => s.subrange(1, s.len() as int)));
    }
}

/// Converts adapter types into bridge types.  Built once from a module's
/// struct declarations, then read-only for the rest of the translation.
#[derive(Debug, PartialEq, Eq)]
pub struct TypeRegistry {
    pub structs: Vec<StructDef>,
}

impl View for TypeRegistry {
    type V = Seq<StructDefSpec>;

    open spec fn view(&self) -> Seq<StructDefSpec> {
        Seq::new(self.structs@.len(), |i: int| self.structs@[i]@)
    }
}

/// Registering the declarations one after another, each converted against the
/// registry built so far; a duplicate name is rejected, and a named reference
/// resolves only to an earlier declaration.
pub open spec fn spec_register_decls(
    reg: Seq<StructDefSpec>,
    decls: Seq<adapter::StructDeclSpec>,
) -> Result<Seq<StructDefSpec>, ErrorSpec>
    decreases decls.len(),
{
    if decls.len() == 0 {
        Result::Ok(reg)
    } else {
        let d = decls[0];
        if find_by_name(reg, d.name) is Some {
            Result::Err(ErrorSpec::InvalidAssumption("duplicate struct type name"@))
        } else {
            match spec_convert_types(reg, d.fields) {
                Result::Err(e) => Result::Err(e),
                Result::Ok(fs) => spec_register_decls(
                    reg.push(StructDefSpec { name: d.name, fields: fs }),
                    decls.subrange(1, decls.len() as int),
                ),
            }
        }
    }
}

/// What building the registry from a module's declarations yields.
pub open spec fn spec_build_registry(decls: Seq<adapter::StructDeclSpec>) -> Result<
    Seq<StructDefSpec>,
    ErrorSpec,
> {
    spec_register_decls(Seq::empty(), decls)
}

impl TypeRegistry {
    /// The registry index of the first entry with the given name.
    fn index_by_name(&self, name: &str) -> (r: Option<usize>)
        ensures
            match r {
                Option::None => find_by_name(self@, name@) is None,
                Option::Some(i) => {
                    &&& i < self@.len()
                    &&& self@[i as int].name == name@
                    &&& find_by_name(self@, name@) == Option::Some(self@[i as int])
                },
            },
    {
        proof {
            assert(self@.subrange(0, self@.len() as int) =~= self@);
        }
        let n = self.structs.len();
        for i in 0..n
            invariant
                n == self.structs@.len(),
                forall|j: int| 0 <= j < i ==> self@[j].name != name@,
                find_by_name(self@, name@) == find_by_name(
                    self@.subrange(i as int, self@.len() as int),
                    name@,
                ),
        {
            let ghost suffix = self@.subrange(i as int, self@.len() as int);
            if crate::shared::str_eq(self.structs[i].name.as_str(), name) {
                proof {
                    assert(suffix[0] == self@[i as int]);
                }
                return Option::Some(i);
            }
            proof {
                assert(suffix[0] == self@[i as int]);
                assert(suffix.subrange(1, suffix.len() as int) =~= self@.subrange(
                    i + 1,
                    self@.len() as int,
                ));
            }
        }
        proof {
            assert(self@.subrange(self@.len() as int, self@.len() as int).len() == 0);
        }
        Option::None
    }

    /// The registry index of the first entry whose fields equal the given ones.
    fn index_by_fields(&self, fields: &Vec<Type>) -> (r: Option<usize>)
        ensures
            match r {
                Option::None => find_by_fields(self@, types_view(fields@)) is None,
                Option::Some(i) => {
                    &&& i < self@.len()
                    &&& self@[i as int].fields == types_view(fields@)
                    &&& find_by_fields(self@, types_view(fields@)) == Option::Some(
                        self@[i as int],
                    )
                },
            },
    {
        proof {
            assert(self@.subrange(0, self@.len() as int) =~= self@);
        }
        let n = self.structs.len();
        for i in 0..n
            invariant
                n == self.structs@.len(),
                forall|j: int| 0 <= j < i ==> self@[j].fields != types_view(fields@),
                find_by_fields(self@, types_view(fields@)) == find_by_fields(
                    self@.subrange(i as int, self@.len() as int),
                    types_view(fields@),
                ),
        {
            let ghost suffix = self@.subrange(i as int, self@.len() as int);
            if types_eq(&self.structs[i].fields, fields) {
                proof {
                    assert(suffix[0] == self@[i as int]);
                }
                return Option::Some(i);
            }
            proof {
                assert(suffix[0] == self@[i as int]);
                assert(suffix.subrange(1, suffix.len() as int) =~= self@.subrange(
                    i + 1,
                    self@.len() as int,
                ));
            }
        }
        proof {
            assert(self@.subrange(self@.len() as int, self@.len() as int).len() == 0);
        }
        Option::None
    }

    /// Convert one adapter-form type against this registry.
    pub fn convert(&self, t: &adapter::Type) -> (r: EngineResult<Type>)
        ensures
            result_view(r) == spec_convert_type(self@, t@),
        decreases t,
    {
        match t {
            adapter::Type::Void => Result::Ok(Type::Void),
            adapter::Type::Int { width } => Result::Ok(Type::Bitvec { bits: *width }),
            adapter::Type::Float { .. } => Result::Err(
                EngineError::NotSupportedYet(Unsupported::FloatingPoint),
            ),
            adapter::Type::Pointer { pointee: _, address_space } => {
                if *address_space != 0 {
                    Result::Err(EngineError::NotSupportedYet(Unsupported::PointerAddressSpace))
                } else {
                    Result::Ok(Type::Pointer)
                }
            }
            adapter::Type::Array { element, length } => {
                match self.convert(element) {
                    Result::Err(e) => Result::Err(e),
                    Result::Ok(elem) => Result::Ok(
                        Type::Array { element: Box::new(elem), length: *length },
                    ),
                }
            }
            adapter::Type::Struct { fields } => {
                proof {
                    assert(decreases_to!(*t => (*t)->Struct_fields));
                    assert((*t)->Struct_fields == *fields);
                }
                match self.convert_list(fields) {
                    Result::Err(e) => Result::Err(e),
                    Result::Ok(fs) => Result::Ok(Type::Struct { name: Option::None, fields: fs }),
                }
            }
            adapter::Type::Named { name } => {
                match self.index_by_name(name.as_str()) {
                    Option::None => Result::Err(
                        EngineError::InvalidAssumption("unknown struct type name".to_owned()),
                    ),
                    Option::Some(i) => {
                        let def_fields = types_dup(&self.structs[i].fields);
                        match self.index_by_fields(&def_fields) {
                            Option::None => Result::Err(
                                EngineError::InvariantViolation(
                                    "struct deduplication missed itself".to_owned(),
                                ),
                            ),
                            Option::Some(c) => {
                                let canon_name = self.structs[c].name.duplicate();
                                Result::Ok(
                                    Type::Struct {
                                        name: Option::Some(canon_name),
                                        fields: def_fields,
                                    },
                                )
                            }
                        }
                    }
                }
            }
            adapter::Type::Function { params, ret } => {
                proof {
                    assert(decreases_to!(*t => (*t)->Function_params));
                    assert((*t)->Function_params == *params);
                }
                match self.convert_list(params) {
                    Result::Err(e) => Result::Err(e),
                    Result::Ok(ps) => {
                        let is_void = match &**ret {
                            adapter::Type::Void => true,
                            _ => false,
                        };
                        proof {
                            assert(is_void == (adapter::type_view(**ret) is Void));
                        }
                        if is_void {
                            Result::Ok(Type::Function { params: ps, ret: Option::None })
                        } else {
                            match self.convert(ret) {
                                Result::Err(e) => Result::Err(e),
                                Result::Ok(rt) => Result::Ok(
                                    Type::Function {
                                        params: ps,
                                        ret: Option::Some(Box::new(rt)),
                                    },
                                ),
                            }
                        }
                    }
                }
            }
            adapter::Type::Vector { element, scalable, length: _ } => {
                if *scalable {
                    Result::Err(EngineError::NotSupportedYet(Unsupported::ScalableVector))
                } else {
                    let elem_is_ptr = match &**element {
                        adapter::Type::Pointer { .. } => true,
                        _ => false,
                    };
                    proof {
                        assert(elem_is_ptr == (adapter::type_view(**element) is Pointer));
                    }
                    if elem_is_ptr {
                        Result::Err(EngineError::NotSupportedYet(Unsupported::VectorOfPointers))
                    } else {
                        Result::Err(
                            EngineError::InvalidAssumption("unexpected vector type".to_owned()),
                        )
                    }
                }
            }
            adapter::Type::Label => Result::Err(
                EngineError::InvalidAssumption("unexpected label type".to_owned()),
            ),
            adapter::Type::Metadata => Result::Err(
                EngineError::InvalidAssumption("unexpected metadata type".to_owned()),
            ),
            adapter::Type::Token => Result::Err(
                EngineError::InvalidAssumption("unexpected token type".to_owned()),
            ),
        }
    }

    /// Convert a list of adapter-form types, failing on the first error.
    fn convert_list(&self, ts: &Vec<adapter::Type>) -> (r: EngineResult<Vec<Type>>)
        ensures
            match r {
                Result::Ok(v) => spec_convert_types(self@, adapter::types_view(ts@))
                    == Result::<Seq<TypeSpec>, ErrorSpec>::Ok(types_view(v@)),
                Result::Err(e) => spec_convert_types(self@, adapter::types_view(ts@))
                    == Result::<Seq<TypeSpec>, ErrorSpec>::Err(e@),
            },
        decreases ts,
    {
        let ghost full = adapter::types_view(ts@);
        let n = ts.len();
        let mut out: Vec<Type> = Vec::new();
        proof {
            assert(full.subrange(0, full.len() as int) =~= full);
            assert(types_view(out@) =~= Seq::<TypeSpec>::empty());
            if spec_convert_types(self@, full) is Ok {
                let rest = spec_convert_types(self@, full)->Ok_0;
                assert(Seq::<TypeSpec>::empty() + rest =~= rest);
            }
        }
        for i in 0..n
            invariant
                n == ts@.len(),
                full == adapter::types_view(ts@),
                out@.len() == i,
                spec_convert_types(self@, full) == (match spec_convert_types(
                    self@,
                    full.subrange(i as int, full.len() as int),
                ) {
                    Result::Ok(rest) => Result::<Seq<TypeSpec>, ErrorSpec>::Ok(
                        types_view(out@) + rest,
                    ),
                    Result::Err(e) => Result::<Seq<TypeSpec>, ErrorSpec>::Err(e),
                }),
        {
            let ghost suffix = full.subrange(i as int, full.len() as int);
            proof {
                assert(suffix[0] == full[i as int]);
                assert(full[i as int] == ts@[i as int]@);
                assert(suffix.subrange(1, suffix.len() as int) =~= full.subrange(
                    i + 1,
                    full.len() as int,
                ));
                assert(decreases_to!(*ts => ts@));
                assert(decreases_to!(ts@ => ts@[i as int]));
            }
            match self.convert(&ts[i]) {
                Result::Err(e) => {
                    return Result::Err(e);
                }
                Result::Ok(c) => {
                    let ghost prev = types_view(out@);
                    out.push(c);
                    proof {
                        assert(types_view(out@) =~= prev.push(c@));
                        if spec_convert_types(self@, full.subrange(i + 1, full.len() as int))
                            is Ok {
                            let rest = spec_convert_types(
                                self@,
                                full.subrange(i + 1, full.len() as int),
                            )->Ok_0;
                            assert(prev.push(c@) + rest =~= prev + (seq![c@] + rest));
                        }
                    }
                }
            }
        }
        proof {
            assert(full.subrange(n as int, full.len() as int).len() == 0);
            assert(types_view(out@) + Seq::<TypeSpec>::empty() =~= types_view(out@));
        }
        Result::Ok(out)
    }

    /// Build the registry from a module's struct declarations.
    pub fn build(decls: &Vec<adapter::StructDecl>) -> (r: EngineResult<TypeRegistry>)
        ensures
            result_view(r) == spec_build_registry(adapter::struct_decls_view(decls@)),
    {
        let ghost full = adapter::struct_decls_view(decls@);
        let n = decls.len();
        let mut reg = TypeRegistry { structs: Vec::new() };
        proof {
            assert(reg@ =~= Seq::<StructDefSpec>::empty());
            assert(full.subrange(0, full.len() as int) =~= full);
        }
        for i in 0..n
            invariant
                n == decls@.len(),
                full == adapter::struct_decls_view(decls@),
                spec_build_registry(full) == spec_register_decls(
                    reg@,
                    full.subrange(i as int, full.len() as int),
                ),
        {
            let ghost suffix = full.subrange(i as int, full.len() as int);
            proof {
                assert(suffix[0] == full[i as int]);
                assert(full[i as int] == decls@[i as int]@);
                assert(suffix.subrange(1, suffix.len() as int) =~= full.subrange(
                    i + 1,
                    full.len() as int,
                ));
            }
            let d = &decls[i];
            if reg.index_by_name(d.name.as_str()).is_some() {
                return Result::Err(
                    EngineError::InvalidAssumption("duplicate struct type name".to_owned()),
                );
            }
            match reg.convert_list(&d.fields) {
                Result::Err(e) => {
                    return Result::Err(e);
                }
                Result::Ok(fs) => {
                    let ghost prev = reg@;
                    let name = Identifier::new(d.name.clone());
                    reg.structs.push(StructDef { name, fields: fs });
                    proof {
                        assert(reg@ =~= prev.push(
                            StructDefSpec { name: d@.name, fields: types_view(fs@) },
                        ));
                    }
                }
            }
        }
        proof {
            assert(full.subrange(n as int, full.len() as int).len() == 0);
        }
        Result::Ok(reg)
    }
}

} // verus!
