//! The per-function translation context: the shared registries, the
//! discovered block set, the parameter types, the declared return type, and
//! the register-type binding table with its first-write-wins discipline.

use vstd::prelude::*;

use crate::adapter;
use crate::constant::{Constant, spec_convert_constant};
use crate::error::{EngineError, EngineResult, ErrorSpec, result_view};
use crate::shared::SymbolRegistry;
use crate::typing::{Type, TypeSpec, TypeRegistry, StructDefSpec, spec_convert_type, type_eq,
    type_dup};
use crate::value::{RegisterSlot, Value, ValueSpec};

verus! {

/// The view of an optional bridge type.
pub open spec fn opt_type_view(o: Option<Type>) -> Option<TypeSpec> {
    match o {
        Option::None => Option::None,
        Option::Some(t) => Option::Some(t@),
    }
}

/// The register-binding arena: one optional type slot per instruction index.
/// A slot is created unbound when the function's blocks are scanned, and the
/// first reference to the register fixes its type.
#[derive(Debug, PartialEq, Eq)]
pub struct RegisterTable {
    pub pairs: Vec<(usize, Option<Type>)>,
}

impl View for RegisterTable {
    type V = Seq<(nat, Option<TypeSpec>)>;

    open spec fn view(&self) -> Seq<(nat, Option<TypeSpec>)> {
        Seq::new(
            self.pairs@.len(),
            |i: int| (self.pairs@[i].0 as nat, opt_type_view(self.pairs@[i].1)),
        )
    }
}

/// The slot stored under a key: the first pair carrying it, front to back.
pub open spec fn table_get(s: Seq<(nat, Option<TypeSpec>)>, k: nat) -> Option<Option<TypeSpec>>
    decreases s.len(),
{
    if s.len() == 0 {
        Option::None
    } else if s[0].0 == k {
        Option::Some(s[0].1)
    } else {
        table_get(s.subrange(1, s.len() as int), k)
    }
}

/// The table with the first pair carrying the key replaced.
pub open spec fn table_set(
    s: Seq<(nat, Option<TypeSpec>)>,
    k: nat,
    v: Option<TypeSpec>,
) -> Seq<(nat, Option<TypeSpec>)>
    decreases s.len(),
{
    if s.len() == 0 {
        s
    } else if s[0].0 == k {
        seq![(k, v)] + s.subrange(1, s.len() as int)
    } else {
        seq![s[0]] + table_set(s.subrange(1, s.len() as int), k, v)
    }
}

/// A key carried by no pair is absent from the table.
pub proof fn lemma_table_get_absent(s: Seq<(nat, Option<TypeSpec>)>, k: nat)
    requires
        forall|j: int| 0 <= j < s.len() ==> s[j].0 != k,
    ensures
        table_get(s, k) is None,
    decreases s.len(),
{
    if s.len() > 0 {
        let rest = s.subrange(1, s.len() as int);
        assert(forall|j: int| 0 <= j < rest.len() ==> rest[j] == s[j + 1]);
        lemma_table_get_absent(rest, k);
    }
}

/// Where the first pair carrying the key stands at a known position, the
/// table reads and updates positionally.
pub proof fn lemma_table_get_at(s: Seq<(nat, Option<TypeSpec>)>, i: int, k: nat)
    requires
        0 <= i < s.len(),
        s[i].0 == k,
        forall|j: int| 0 <= j < i ==> s[j].0 != k,
    ensures
        table_get(s, k) == Option::Some(s[i].1),
    decreases s.len(),
{
    if i > 0 {
        let rest = s.subrange(1, s.len() as int);
        assert(forall|j: int| 0 <= j < rest.len() ==> rest[j] == s[j + 1]);
        lemma_table_get_at(rest, i - 1, k);
    }
}

pub proof fn lemma_table_set_at(s: Seq<(nat, Option<TypeSpec>)>, i: int, k: nat, v: Option<TypeSpec>)
    requires
        0 <= i < s.len(),
        s[i].0 == k,
        forall|j: int| 0 <= j < i ==> s[j].0 != k,
    ensures
        table_set(s, k, v) == s.update(i, (k, v)),
    decreases s.len(),
{
    let rest = s.subrange(1, s.len() as int);
    if i == 0 {
        assert(table_set(s, k, v) == seq![(k, v)] + rest);
        assert(seq![(k, v)] + rest =~= s.update(0, (k, v)));
    } else {
        assert(forall|j: int| 0 <= j < rest.len() ==> rest[j] == s[j + 1]);
        lemma_table_set_at(rest, i - 1, k, v);
        assert(table_set(s, k, v) == seq![s[0]] + rest.update(i - 1, (k, v)));
        assert(seq![s[0]] + rest.update(i - 1, (k, v)) =~= s.update(i, (k, v)));
    }
}

/// Setting a present key stores exactly the new slot under it.
pub proof fn lemma_table_get_set(s: Seq<(nat, Option<TypeSpec>)>, k: nat, v: Option<TypeSpec>)
    requires
        table_get(s, k) is Some,
    ensures
        table_get(table_set(s, k, v), k) == Option::Some(v),
    decreases s.len(),
{
    if s.len() > 0 {
        let rest = s.subrange(1, s.len() as int);
        if s[0].0 == k {
            let updated = seq![(k, v)] + rest;
            assert(updated[0] == (k, v));
        } else {
            lemma_table_get_set(rest, k, v);
            let updated = seq![s[0]] + table_set(rest, k, v);
            assert(updated[0] == s[0]);
            assert(updated.subrange(1, updated.len() as int) =~= table_set(rest, k, v));
        }
    }
}

impl RegisterTable {
    /// A table with no slots.
    pub fn new() -> (r: Self)
        ensures
            r@ == Seq::<(nat, Option<TypeSpec>)>::empty(),
    {
        let r = RegisterTable { pairs: Vec::new() };
        proof {
            assert(r@ =~= Seq::<(nat, Option<TypeSpec>)>::empty());
        }
        r
    }

    /// The slot stored under the key, duplicated, or `None` when absent.
    pub fn lookup(&self, k: usize) -> (r: Option<Option<Type>>)
        ensures
            match r {
                Option::None => table_get(self@, k as nat) is None,
                Option::Some(slot) => table_get(self@, k as nat) == Option::Some(
                    opt_type_view(slot),
                ),
            },
    {
        proof {
            assert(self@.subrange(0, self@.len() as int) =~= self@);
        }
        let n = self.pairs.len();
        for i in 0..n
            invariant
                n == self.pairs@.len(),
                table_get(self@, k as nat) == table_get(
                    self@.subrange(i as int, self@.len() as int),
                    k as nat,
                ),
                forall|j: int| 0 <= j < i ==> self@[j].0 != k as nat,
        {
            let ghost suffix = self@.subrange(i as int, self@.len() as int);
            proof {
                assert(suffix[0] == self@[i as int]);
                assert(suffix.subrange(1, suffix.len() as int) =~= self@.subrange(
                    i + 1,
                    self@.len() as int,
                ));
            }
            if self.pairs[i].0 == k {
                let slot = match &self.pairs[i].1 {
                    Option::None => Option::None,
                    Option::Some(t) => Option::Some(type_dup(t)),
                };
                return Option::Some(slot);
            }
        }
        proof {
            assert(self@.subrange(self@.len() as int, self@.len() as int).len() == 0);
        }
        Option::None
    }

    /// The position of the first pair carrying the key.
    fn find_index(&self, k: usize) -> (r: Option<usize>)
        ensures
            match r {
                Option::None => forall|j: int| 0 <= j < self@.len() ==> self@[j].0 != k as nat,
                Option::Some(i) => {
                    &&& i < self@.len()
                    &&& self@[i as int].0 == k as nat
                    &&& forall|j: int| 0 <= j < i ==> self@[j].0 != k as nat
                },
            },
    {
        let n = self.pairs.len();
        for i in 0..n
            invariant
                n == self.pairs@.len(),
                forall|j: int| 0 <= j < i ==> self@[j].0 != k as nat,
        {
            if self.pairs[i].0 == k {
                return Option::Some(i);
            }
        }
        Option::None
    }

    /// Fix the type of a register whose slot exists and is still unbound, or
    /// re-affirm an existing binding; the caller has checked the slot.
    pub fn bind(&mut self, k: usize, t: Type)
        requires
            table_get(old(self)@, k as nat) is Some,
        ensures
            final(self)@ == table_set(old(self)@, k as nat, Option::Some(t@)),
    {
        let ghost orig = self@;
        match self.find_index(k) {
            Option::None => {
                proof {
                    lemma_table_get_absent(orig, k as nat);
                }
            }
            Option::Some(i) => {
                proof {
                    lemma_table_set_at(orig, i as int, k as nat, Option::Some(t@));
                }
                self.pairs[i] = (k, Option::Some(t));
                proof {
                    assert(self@ =~= orig.update(i as int, (k as nat, Option::Some(t@))));
                }
            }
        }
    }

    /// Create an unbound slot for a fresh instruction index; reports whether
    /// the index was indeed fresh.
    pub fn register(&mut self, k: usize) -> (r: bool)
        ensures
            r == (table_get(old(self)@, k as nat) is None),
            r ==> final(self)@ == old(self)@.push((k as nat, Option::None)),
            !r ==> final(self)@ == old(self)@,
    {
        let existing = self.lookup(k);
        if existing.is_some() {
            return false;
        }
        let ghost prev = self@;
        self.pairs.push((k, Option::None));
        proof {
            assert(self@ =~= prev.push((k as nat, Option::None)));
        }
        true
    }
}

/// Mathematical model of a translation context.
#[verifier::ext_equal]
pub struct ContextSpec {
    pub typing: Seq<StructDefSpec>,
    pub symbols: Seq<Seq<char>>,
    pub blocks: Seq<nat>,
    pub insts: Seq<(nat, Option<TypeSpec>)>,
    pub args: Seq<TypeSpec>,
    pub ret: Option<TypeSpec>,
}

/// The same context with a different register table.
pub open spec fn ctx_with_insts(
    ctx: ContextSpec,
    insts: Seq<(nat, Option<TypeSpec>)>,
) -> ContextSpec {
    ContextSpec { insts, ..ctx }
}

/// A context manager for converting the instructions of one function.
#[derive(Debug)]
pub struct Context<'a> {
    /// the module's type registry, shared and read-only
    pub typing: &'a TypeRegistry,
    /// the module's symbol registry, shared and read-only
    pub symbols: &'a SymbolRegistry,
    /// the labels of every block of the function
    pub blocks: Vec<usize>,
    /// the register-binding table
    pub insts: RegisterTable,
    /// the declared parameter types, by position
    pub args: Vec<Type>,
    /// the declared return type
    pub ret: Option<Type>,
}

impl<'a> View for Context<'a> {
    type V = ContextSpec;

    open spec fn view(&self) -> ContextSpec {
        ContextSpec {
            typing: self.typing@,
            symbols: self.symbols@,
            blocks: Seq::new(self.blocks@.len(), |i: int| self.blocks@[i] as nat),
            insts: self.insts@,
            args: crate::typing::types_view(self.args@),
            ret: opt_type_view(self.ret),
        }
    }
}

/// What converting one adapter-form value against an expected bridge type
/// yields, together with the register table afterwards.  A register's first
/// reference binds its type; a later reference must carry the same type.
pub open spec fn spec_parse_value(
    ctx: ContextSpec,
    v: adapter::ValueSpec,
    expected: TypeSpec,
) -> (Result<ValueSpec, ErrorSpec>, Seq<(nat, Option<TypeSpec>)>) {
    match v {
        adapter::ValueSpec::Constant(c) => {
            match spec_convert_constant(ctx.typing, ctx.symbols, c, expected) {
                Result::Err(e) => (Result::Err(e), ctx.insts),
                Result::Ok(cc) => (Result::Ok(ValueSpec::Constant(cc)), ctx.insts),
            }
        }
        adapter::ValueSpec::Argument { ty, index } => {
            match spec_convert_type(ctx.typing, ty) {
                Result::Err(e) => (Result::Err(e), ctx.insts),
                Result::Ok(actual) => {
                    if expected != actual {
                        (
                            Result::Err(ErrorSpec::InvariantViolation("argument type mismatch"@)),
                            ctx.insts,
                        )
                    } else if index >= ctx.args.len() {
                        (
                            Result::Err(ErrorSpec::InvariantViolation("invalid argument index"@)),
                            ctx.insts,
                        )
                    } else if ctx.args[index as int] != actual {
                        (
                            Result::Err(ErrorSpec::InvariantViolation("param type mismatch"@)),
                            ctx.insts,
                        )
                    } else {
                        (Result::Ok(ValueSpec::Argument { index, ty: actual }), ctx.insts)
                    }
                }
            }
        }
        adapter::ValueSpec::Instruction { ty, index } => {
            match spec_convert_type(ctx.typing, ty) {
                Result::Err(e) => (Result::Err(e), ctx.insts),
                Result::Ok(actual) => {
                    if expected != actual {
                        (
                            Result::Err(
                                ErrorSpec::InvariantViolation("instruction type mismatch"@),
                            ),
                            ctx.insts,
                        )
                    } else {
                        match table_get(ctx.insts, index) {
                            Option::None => (
                                Result::Err(
                                    ErrorSpec::InvariantViolation("invalid instruction index"@),
                                ),
                                ctx.insts,
                            ),
                            Option::Some(Option::None) => (
                                Result::Ok(ValueSpec::Register { index, ty: actual }),
                                table_set(ctx.insts, index, Option::Some(actual)),
                            ),
                            Option::Some(Option::Some(reg_type)) => {
                                if reg_type != actual {
                                    (
                                        Result::Err(
                                            ErrorSpec::InvariantViolation(
                                                "register type mismatch"@,
                                            ),
                                        ),
                                        ctx.insts,
                                    )
                                } else {
                                    (
                                        Result::Ok(ValueSpec::Register { index, ty: actual }),
                                        ctx.insts,
                                    )
                                }
                            }
                        }
                    }
                }
            }
        }
    }
}

/// The bv32-or-bv64 coercion used where the source width is ambiguous: a raw
/// value declared as a 32-bit integer parses as bitvec-32, anything else as
/// bitvec-64.
pub open spec fn spec_parse_value_bv32_or_bv64(ctx: ContextSpec, v: adapter::ValueSpec) -> (
    Result<ValueSpec, ErrorSpec>,
    Seq<(nat, Option<TypeSpec>)>,
) {
    if adapter::value_spec_type(v) == (adapter::TypeSpec::Int { width: 32 as nat }) {
        spec_parse_value(ctx, v, TypeSpec::Bitvec { bits: 32 as nat })
    } else {
        spec_parse_value(ctx, v, TypeSpec::Bitvec { bits: 64 as nat })
    }
}

impl<'a> Context<'a> {
    /// Convert one adapter-form value against an expected bridge type.
    pub fn parse_value(&mut self, val: &adapter::Value, expected_type: &Type) -> (r: EngineResult<
        Value,
    >)
        ensures
            result_view(r) == spec_parse_value(old(self)@, val@, expected_type@).0,
            final(self)@ == ctx_with_insts(
                old(self)@,
                spec_parse_value(old(self)@, val@, expected_type@).1,
            ),
    {
        match val {
            adapter::Value::Constant(c) => {
                match Constant::convert(c, expected_type, self.typing, self.symbols) {
                    Result::Err(e) => Result::Err(e),
                    Result::Ok(cc) => Result::Ok(Value::Constant(cc)),
                }
            }
            adapter::Value::Argument { ty, index } => {
                let actual = match self.typing.convert(ty) {
                    Result::Err(e) => {
                        return Result::Err(e);
                    }
                    Result::Ok(t) => t,
                };
                if !type_eq(expected_type, &actual) {
                    return Result::Err(
                        EngineError::InvariantViolation("argument type mismatch".to_owned()),
                    );
                }
                if *index >= self.args.len() {
                    return Result::Err(
                        EngineError::InvariantViolation("invalid argument index".to_owned()),
                    );
                }
                proof {
                    assert(old(self)@.args[*index as int] == self.args@[*index as int]@);
                }
                if !type_eq(&self.args[*index], &actual) {
                    return Result::Err(
                        EngineError::InvariantViolation("param type mismatch".to_owned()),
                    );
                }
                Result::Ok(Value::Argument { index: *index, ty: actual })
            }
            adapter::Value::Instruction { ty, index } => {
                let actual = match self.typing.convert(ty) {
                    Result::Err(e) => {
                        return Result::Err(e);
                    }
                    Result::Ok(t) => t,
                };
                if !type_eq(expected_type, &actual) {
                    return Result::Err(
                        EngineError::InvariantViolation("instruction type mismatch".to_owned()),
                    );
                }
                match self.insts.lookup(*index) {
                    Option::None => Result::Err(
                        EngineError::InvariantViolation("invalid instruction index".to_owned()),
                    ),
                    Option::Some(Option::None) => {
                        let bound = type_dup(&actual);
                        self.insts.bind(*index, bound);
                        Result::Ok(
                            Value::Register { index: RegisterSlot::new(*index), ty: actual },
                        )
                    }
                    Option::Some(Option::Some(reg_type)) => {
                        if !type_eq(&reg_type, &actual) {
                            Result::Err(
                                EngineError::InvariantViolation(
                                    "register type mismatch".to_owned(),
                                ),
                            )
                        } else {
                            Result::Ok(
                                Value::Register { index: RegisterSlot::new(*index), ty: actual },
                            )
                        }
                    }
                }
            }
        }
    }

    /// Convert a raw value as either bitvec-32 or bitvec-64, following its
    /// declared width.
    pub fn parse_value_bv32_or_bv64(&mut self, val: &adapter::Value) -> (r: EngineResult<Value>)
        ensures
            result_view(r) == spec_parse_value_bv32_or_bv64(old(self)@, val@).0,
            final(self)@ == ctx_with_insts(
                old(self)@,
                spec_parse_value_bv32_or_bv64(old(self)@, val@).1,
            ),
    {
        let is32 = match val.get_type() {
            adapter::Type::Int { width } => *width == 32,
            _ => false,
        };
        proof {
            assert(is32 == (adapter::value_spec_type(val@) == (adapter::TypeSpec::Int {
                width: 32 as nat,
            })));
        }
        if is32 {
            self.parse_value(val, &Type::Bitvec { bits: 32 })
        } else {
            self.parse_value(val, &Type::Bitvec { bits: 64 })
        }
    }
}

} // verus!
