//! The compiler-invocation vocabulary: one variant per recognized clang
//! argument, parsed from a token stream.  Tokens are carried as character
//! vectors; the host splits the command line and hands the tokens in.

use vstd::prelude::*;

use crate::shared::str_eq;

verus! {

/// Whether `p` is a prefix of `s`.
pub open spec fn starts_with(s: Seq<char>, p: Seq<char>) -> bool {
    p.len() <= s.len() && s.subrange(0, p.len() as int) == p
}

/// Whether `p` is a prefix of `s`, decided executably.
pub fn chars_start_with(s: &Vec<char>, p: &Vec<char>) -> (r: bool)
    ensures
        r == starts_with(s@, p@),
{
    if p.len() > s.len() {
        assert(!starts_with(s@, p@));
        return false;
    }
    let n = p.len();
    for i in 0..n
        invariant
            n == p@.len(),
            n <= s@.len(),
            forall|j: int| 0 <= j < i ==> s@[j] == p@[j],
    {
        if s[i] != p[i] {
            assert(s@.subrange(0, p@.len() as int)[i as int] != p@[i as int]);
            return false;
        }
    }
    proof {
        assert(s@.subrange(0, p@.len() as int) =~= p@);
    }
    true
}

/// Whether two character vectors hold the same text.
pub fn chars_eq(a: &Vec<char>, b: &Vec<char>) -> (r: bool)
    ensures
        r == (a@ == b@),
{
    if a.len() != b.len() {
        return false;
    }
    let n = a.len();
    for i in 0..n
        invariant
            n == a@.len(),
            n == b@.len(),
            forall|j: int| 0 <= j < i ==> a@[j] == b@[j],
    {
        if a[i] != b[i] {
            return false;
        }
    }
    proof {
        assert(a@ =~= b@);
    }
    true
}

/// The text from position `from` to the end.
pub fn chars_suffix(s: &Vec<char>, from: usize) -> (r: Vec<char>)
    requires
        from <= s@.len(),
    ensures
        r@ == s@.subrange(from as int, s@.len() as int),
{
    let mut out: Vec<char> = Vec::new();
    let n = s.len();
    for i in from..n
        invariant
            n == s@.len(),
            from <= i <= n,
            out@.len() == i - from,
            forall|j: int| 0 <= j < out@.len() ==> out@[j] == s@[from + j],
    {
        out.push(s[i]);
    }
    proof {
        assert(out@ =~= s@.subrange(from as int, s@.len() as int));
    }
    out
}

/// An owned copy of the text.
pub fn chars_dup(s: &Vec<char>) -> (r: Vec<char>)
    ensures
        r@ == s@,
{
    let mut out: Vec<char> = Vec::new();
    let n = s.len();
    for i in 0..n
        invariant
            n == s@.len(),
            out@.len() == i,
            forall|j: int| 0 <= j < i ==> out@[j] == s@[j],
    {
        out.push(s[i]);
    }
    proof {
        assert(out@ =~= s@);
    }
    out
}

/// The first position carrying the character, scanning from the front.
pub open spec fn find_char(s: Seq<char>, c: char) -> Option<int>
    decreases s.len(),
{
    if s.len() == 0 {
        Option::None
    } else if s[0] == c {
        Option::Some(0)
    } else {
        match find_char(s.subrange(1, s.len() as int), c) {
            Option::None => Option::None,
            Option::Some(i) => Option::Some(i + 1),
        }
    }
}

/// A found position is in range, carries the character, and is the first.
pub proof fn lemma_find_char_bounds(s: Seq<char>, c: char)
    ensures
        match find_char(s, c) {
            Option::None => forall|j: int| 0 <= j < s.len() ==> s[j] != c,
            Option::Some(i) => {
                &&& 0 <= i < s.len()
                &&& s[i] == c
                &&& forall|j: int| 0 <= j < i ==> s[j] != c
            },
        },
    decreases s.len(),
{
    if s.len() > 0 && s[0] != c {
        let rest = s.subrange(1, s.len() as int);
        assert(forall|j: int| 0 <= j < rest.len() ==> rest[j] == s[j + 1]);
        lemma_find_char_bounds(rest, c);
        match find_char(rest, c) {
            Option::None => {
                assert forall|j: int| 0 <= j < s.len() implies s[j] != c by {
                    if j >= 1 {
                        assert(rest[j - 1] == s[j]);
                    }
                }
            }
            Option::Some(i) => {
                assert(rest[i] == s[i + 1]);
                assert forall|j: int| 0 <= j < i + 1 implies s[j] != c by {
                    if j >= 1 {
                        assert(rest[j - 1] == s[j]);
                    }
                }
            }
        }
    }
}

/// The first position carrying the character, decided executably.
pub fn chars_find(s: &Vec<char>, c: char) -> (r: Option<usize>)
    ensures
        match r {
            Option::None => find_char(s@, c) is None,
            Option::Some(i) => find_char(s@, c) == Option::Some(i as int),
        },
{
    proof {
        lemma_find_char_bounds(s@, c);
    }
    let n = s.len();
    for i in 0..n
        invariant
            n == s@.len(),
            forall|j: int| 0 <= j < i ==> s@[j] != c,
            match find_char(s@, c) {
                Option::None => forall|j: int| 0 <= j < s@.len() ==> s@[j] != c,
                Option::Some(k) => {
                    &&& 0 <= k < s@.len()
                    &&& s@[k] == c
                    &&& forall|j: int| 0 <= j < k ==> s@[j] != c
                },
            },
    {
        if s[i] == c {
            return Option::Some(i);
        }
    }
    Option::None
}

/// A token split at its first `=`: the key alone, or the key and the value.
pub open spec fn spec_key_value(item: Seq<char>) -> (Seq<char>, Option<Seq<char>>) {
    match find_char(item, '=') {
        Option::None => (item, Option::None),
        Option::Some(i) => (
            item.subrange(0, i),
            Option::Some(item.subrange(i + 1, item.len() as int)),
        ),
    }
}

/// Split a `key{=value}` token.
pub fn expect_maybe_key_value(item: &Vec<char>) -> (r: (Vec<char>, Option<Vec<char>>))
    ensures
        r.0@ == spec_key_value(item@).0,
        match r.1 {
            Option::None => spec_key_value(item@).1 is None,
            Option::Some(v) => spec_key_value(item@).1 == Option::Some(v@),
        },
{
    proof {
        lemma_find_char_bounds(item@, '=');
    }
    match chars_find(item, '=') {
        Option::None => (chars_dup(item), Option::None),
        Option::Some(i) => {
            let key = {
                let mut out: Vec<char> = Vec::new();
                for j in 0..i
                    invariant
                        i < item@.len(),
                        out@.len() == j,
                        forall|k: int| 0 <= k < j ==> out@[k] == item@[k],
                {
                    out.push(item[j]);
                }
                proof {
                    assert(out@ =~= item@.subrange(0, i as int));
                }
                out
            };
            let total = item.len();
            assert(i < total);
            let val = chars_suffix(item, i + 1);
            (key, Option::Some(val))
        }
    }
}

/// A comma-separated token split into its pieces.
pub open spec fn spec_split_commas(s: Seq<char>) -> Seq<Seq<char>>
    decreases s.len(),
    via spec_split_commas_dec
{
    match find_char(s, ',') {
        Option::None => seq![s],
        Option::Some(i) => seq![s.subrange(0, i)] + spec_split_commas(
            s.subrange(i + 1, s.len() as int),
        ),
    }
}

#[via_fn]
proof fn spec_split_commas_dec(s: Seq<char>) {
    lemma_find_char_bounds(s, ',');
}

/// Split a comma-separated token.
pub fn split_commas(s: &Vec<char>) -> (r: Vec<Vec<char>>)
    ensures
        Seq::new(r@.len(), |i: int| r@[i]@) == spec_split_commas(s@),
    decreases s@.len(),
{
    proof {
        lemma_find_char_bounds(s@, ',');
    }
    match chars_find(s, ',') {
        Option::None => {
            let mut out: Vec<Vec<char>> = Vec::new();
            out.push(chars_dup(s));
            proof {
                assert(Seq::new(out@.len(), |i: int| out@[i]@) =~= seq![s@]);
            }
            out
        }
        Option::Some(i) => {
            let head = {
                let mut out: Vec<char> = Vec::new();
                for j in 0..i
                    invariant
                        i < s@.len(),
                        out@.len() == j,
                        forall|k: int| 0 <= k < j ==> out@[k] == s@[k],
                {
                    out.push(s[j]);
                }
                proof {
                    assert(out@ =~= s@.subrange(0, i as int));
                }
                out
            };
            let total = s.len();
            assert(i < total);
            let tail = chars_suffix(s, i + 1);
            let rest = split_commas(&tail);
            let mut out: Vec<Vec<char>> = Vec::new();
            out.push(head);
            let ghost rest_view = Seq::new(rest@.len(), |k: int| rest@[k]@);
            let m = rest.len();
            let mut idx: usize = 0;
            for piece_idx in 0..m
                invariant
                    m == rest@.len(),
                    out@.len() == 1 + piece_idx,
                    out@[0]@ == s@.subrange(0, i as int),
                    forall|k: int| 0 <= k < piece_idx ==> out@[k + 1]@ == rest_view[k],
                    rest_view == Seq::new(rest@.len(), |k: int| rest@[k]@),
            {
                let d = chars_dup(&rest[piece_idx]);
                out.push(d);
            }
            proof {
                assert(Seq::new(out@.len(), |k: int| out@[k]@) =~= seq![s@.subrange(0, i as int)]
                    + rest_view);
            }
            out
        }
    }
}

/// A list of `key{=value}` pieces, each split at its first `=`.
pub open spec fn spec_kv_list(items: Seq<Seq<char>>) -> Seq<(Seq<char>, Option<Seq<char>>)> {
    Seq::new(items.len(), |i: int| spec_key_value(items[i]))
}

/// The source language of an input file, judged from its extension.
#[derive(Debug, Clone, Copy, PartialEq, Eq, Structural)]
pub enum Language {
    C,
    CPP,
    Asm,
}

/// What probing an extension yields: the three recognized languages, or
/// nothing.
pub open spec fn spec_probe(extension: Seq<char>) -> Option<Language> {
    if extension == "c"@ {
        Option::Some(Language::C)
    } else if extension == "cpp"@ || extension == "cc"@ {
        Option::Some(Language::CPP)
    } else if extension == "s"@ {
        Option::Some(Language::Asm)
    } else {
        Option::None
    }
}

impl Language {
    /// Judge the source language from a file extension.
    pub fn probe(extension: &str) -> (r: Option<Language>)
        ensures
            r == spec_probe(extension@),
    {
        if str_eq(extension, "c") {
            Option::Some(Language::C)
        } else if str_eq(extension, "cpp") || str_eq(extension, "cc") {
            Option::Some(Language::CPP)
        } else if str_eq(extension, "s") {
            Option::Some(Language::Asm)
        } else {
            Option::None
        }
    }
}

/// One recognized clang argument.
#[derive(Debug, PartialEq, Eq)]
pub enum ClangArg {
    /// -c
    ModeCompile,
    /// -std=<token>
    Standard(Vec<char>),
    /// -D<key>{=<value>}
    Define(Vec<char>, Option<Vec<char>>),
    /// -I<token>, -I <token>
    Include(Vec<char>),
    /// -isysroot <token>
    IncludeSysroot(Vec<char>),
    /// -Wp,<arg>,<arg>,...
    Preprocessor(Vec<(Vec<char>, Option<Vec<char>>)>),
    /// -O<level>
    Optimization(Vec<char>),
    /// -arch <token>
    Arch(Vec<char>),
    /// -march=<token>
    MachineArch(Vec<char>),
    /// -g, --debug
    Debug,
    /// -l<token>, -l <token>
    LibName(Vec<char>),
    /// -L<token>, -L <token>
    LibPath(Vec<char>),
    /// -shared, --shared
    LinkShared,
    /// -static, --static
    LinkStatic,
    /// -Wl,<arg>,<arg>,...
    Linker(Vec<(Vec<char>, Option<Vec<char>>)>),
    /// -mllvm <key>{=<value>}
    Backend(Vec<char>, Option<Vec<char>>),
    /// -fPIC
    FlagPIC,
    /// -fPIE
    FlagPIE,
    /// -W<key>{=<value>}
    Warning(Vec<char>, Option<Vec<char>>),
    /// -w, --no-warnings
    NoWarnings,
    /// -pedantic
    Pedantic,
    /// -pthread
    POSIXThread,
    /// -print-<key>{=<value>}, --print-<key>{=<value>}
    Print(Vec<char>, Option<Vec<char>>),
    /// -o <token>
    Output(Vec<char>),
    /// <token>
    Input(Vec<char>),
}

/// Mathematical model of a recognized clang argument.
#[verifier::ext_equal]
pub enum ClangArgSpec {
    ModeCompile,
    Standard(Seq<char>),
    Define(Seq<char>, Option<Seq<char>>),
    Include(Seq<char>),
    IncludeSysroot(Seq<char>),
    Preprocessor(Seq<(Seq<char>, Option<Seq<char>>)>),
    Optimization(Seq<char>),
    Arch(Seq<char>),
    MachineArch(Seq<char>),
    Debug,
    LibName(Seq<char>),
    LibPath(Seq<char>),
    LinkShared,
    LinkStatic,
    Linker(Seq<(Seq<char>, Option<Seq<char>>)>),
    Backend(Seq<char>, Option<Seq<char>>),
    FlagPIC,
    FlagPIE,
    Warning(Seq<char>, Option<Seq<char>>),
    NoWarnings,
    Pedantic,
    POSIXThread,
    Print(Seq<char>, Option<Seq<char>>),
    Output(Seq<char>),
    Input(Seq<char>),
}

pub open spec fn opt_chars_view(o: Option<Vec<char>>) -> Option<Seq<char>> {
    match o {
        Option::None => Option::None,
        Option::Some(v) => Option::Some(v@),
    }
}

pub open spec fn kv_pairs_view(s: Seq<(Vec<char>, Option<Vec<char>>)>) -> Seq<
    (Seq<char>, Option<Seq<char>>),
> {
    Seq::new(s.len(), |i: int| (s[i].0@, opt_chars_view(s[i].1)))
}

impl View for ClangArg {
    type V = ClangArgSpec;

    open spec fn view(&self) -> ClangArgSpec {
        match self {
            ClangArg::ModeCompile => ClangArgSpec::ModeCompile,
            ClangArg::Standard(v) => ClangArgSpec::Standard(v@),
            ClangArg::Define(k, v) => ClangArgSpec::Define(k@, opt_chars_view(*v)),
            ClangArg::Include(v) => ClangArgSpec::Include(v@),
            ClangArg::IncludeSysroot(v) => ClangArgSpec::IncludeSysroot(v@),
            ClangArg::Preprocessor(args) => ClangArgSpec::Preprocessor(kv_pairs_view(args@)),
            ClangArg::Optimization(v) => ClangArgSpec::Optimization(v@),
            ClangArg::Arch(v) => ClangArgSpec::Arch(v@),
            ClangArg::MachineArch(v) => ClangArgSpec::MachineArch(v@),
            ClangArg::Debug => ClangArgSpec::Debug,
            ClangArg::LibName(v) => ClangArgSpec::LibName(v@),
            ClangArg::LibPath(v) => ClangArgSpec::LibPath(v@),
            ClangArg::LinkShared => ClangArgSpec::LinkShared,
            ClangArg::LinkStatic => ClangArgSpec::LinkStatic,
            ClangArg::Linker(args) => ClangArgSpec::Linker(kv_pairs_view(args@)),
            ClangArg::Backend(k, v) => ClangArgSpec::Backend(k@, opt_chars_view(*v)),
            ClangArg::FlagPIC => ClangArgSpec::FlagPIC,
            ClangArg::FlagPIE => ClangArgSpec::FlagPIE,
            ClangArg::Warning(k, v) => ClangArgSpec::Warning(k@, opt_chars_view(*v)),
            ClangArg::NoWarnings => ClangArgSpec::NoWarnings,
            ClangArg::Pedantic => ClangArgSpec::Pedantic,
            ClangArg::POSIXThread => ClangArgSpec::POSIXThread,
            ClangArg::Print(k, v) => ClangArgSpec::Print(k@, opt_chars_view(*v)),
            ClangArg::Output(v) => ClangArgSpec::Output(v@),
            ClangArg::Input(v) => ClangArgSpec::Input(v@),
        }
    }
}

/// What one token parses to, with the following token at hand: the argument
/// and whether that following token was consumed.  `None` is the unknown
/// option, or a missing follower where one is demanded.
pub open spec fn spec_parse_one(token: Seq<char>, next: Option<Seq<char>>) -> Option<
    (ClangArgSpec, bool),
> {
    if !starts_with(token, "-"@) {
        Option::Some((ClangArgSpec::Input(token), false))
    } else if token == "-c"@ {
        Option::Some((ClangArgSpec::ModeCompile, false))
    } else if token == "-I"@ {
        match next {
            Option::None => Option::None,
            Option::Some(n) => Option::Some((ClangArgSpec::Include(n), true)),
        }
    } else if token == "-isysroot"@ {
        match next {
            Option::None => Option::None,
            Option::Some(n) => Option::Some((ClangArgSpec::IncludeSysroot(n), true)),
        }
    } else if token == "-l"@ {
        match next {
            Option::None => Option::None,
            Option::Some(n) => Option::Some((ClangArgSpec::LibName(n), true)),
        }
    } else if token == "-L"@ {
        match next {
            Option::None => Option::None,
            Option::Some(n) => Option::Some((ClangArgSpec::LibPath(n), true)),
        }
    } else if token == "-arch"@ {
        match next {
            Option::None => Option::None,
            Option::Some(n) => Option::Some((ClangArgSpec::Arch(n), true)),
        }
    } else if token == "-g"@ || token == "--debug"@ {
        Option::Some((ClangArgSpec::Debug, false))
    } else if token == "-shared"@ || token == "--shared"@ {
        Option::Some((ClangArgSpec::LinkShared, false))
    } else if token == "-static"@ || token == "--static"@ {
        Option::Some((ClangArgSpec::LinkStatic, false))
    } else if token == "-mllvm"@ {
        match next {
            Option::None => Option::None,
            Option::Some(n) => {
                let kv = spec_key_value(n);
                Option::Some((ClangArgSpec::Backend(kv.0, kv.1), true))
            }
        }
    } else if token == "-fPIC"@ {
        Option::Some((ClangArgSpec::FlagPIC, false))
    } else if token == "-fPIE"@ {
        Option::Some((ClangArgSpec::FlagPIE, false))
    } else if token == "-w"@ || token == "--no-warnings"@ {
        Option::Some((ClangArgSpec::NoWarnings, false))
    } else if token == "-pedantic"@ {
        Option::Some((ClangArgSpec::Pedantic, false))
    } else if token == "-pthread"@ {
        Option::Some((ClangArgSpec::POSIXThread, false))
    } else if token == "-o"@ {
        match next {
            Option::None => Option::None,
            Option::Some(n) => Option::Some((ClangArgSpec::Output(n), true)),
        }
    } else if starts_with(token, "-std="@) {
        Option::Some((ClangArgSpec::Standard(token.subrange(5, token.len() as int)), false))
    } else if starts_with(token, "-D"@) {
        let kv = spec_key_value(token.subrange(2, token.len() as int));
        Option::Some((ClangArgSpec::Define(kv.0, kv.1), false))
    } else if starts_with(token, "-I"@) {
        Option::Some((ClangArgSpec::Include(token.subrange(2, token.len() as int)), false))
    } else if starts_with(token, "-Wp,"@) {
        Option::Some((
            ClangArgSpec::Preprocessor(
                spec_kv_list(spec_split_commas(token.subrange(4, token.len() as int))),
            ),
            false,
        ))
    } else if starts_with(token, "-O"@) {
        Option::Some((ClangArgSpec::Optimization(token.subrange(2, token.len() as int)), false))
    } else if starts_with(token, "-march="@) {
        Option::Some((ClangArgSpec::MachineArch(token.subrange(7, token.len() as int)), false))
    } else if starts_with(token, "-l"@) {
        Option::Some((ClangArgSpec::LibName(token.subrange(2, token.len() as int)), false))
    } else if starts_with(token, "-L"@) {
        Option::Some((ClangArgSpec::LibPath(token.subrange(2, token.len() as int)), false))
    } else if starts_with(token, "-Wl,"@) {
        Option::Some((
            ClangArgSpec::Linker(
                spec_kv_list(spec_split_commas(token.subrange(4, token.len() as int))),
            ),
            false,
        ))
    } else if starts_with(token, "-W"@) {
        let kv = spec_key_value(token.subrange(2, token.len() as int));
        Option::Some((ClangArgSpec::Warning(kv.0, kv.1), false))
    } else if starts_with(token, "-print-"@) {
        let kv = spec_key_value(token.subrange(7, token.len() as int));
        Option::Some((ClangArgSpec::Print(kv.0, kv.1), false))
    } else if starts_with(token, "--print-"@) {
        let kv = spec_key_value(token.subrange(8, token.len() as int));
        Option::Some((ClangArgSpec::Print(kv.0, kv.1), false))
    } else {
        Option::None
    }
}

/// Collecting a whole token stream into arguments, into `acc`; an argument
/// that consumed its follower advances by two tokens.
pub open spec fn spec_collect(tokens: Seq<Seq<char>>, acc: Seq<ClangArgSpec>) -> Option<
    Seq<ClangArgSpec>,
>
    decreases tokens.len(),
{
    if tokens.len() == 0 {
        Option::Some(acc)
    } else {
        let next = if tokens.len() >= 2 {
            Option::Some(tokens[1])
        } else {
            Option::None
        };
        match spec_parse_one(tokens[0], next) {
            Option::None => Option::None,
            Option::Some(parsed) => {
                let step: int = if parsed.1 && tokens.len() >= 2 {
                    2
                } else {
                    1
                };
                spec_collect(tokens.subrange(step, tokens.len() as int), acc.push(parsed.0))
            }
        }
    }
}

/// Split every piece of a comma-separated list at its first `=`.
fn kv_list(items: &Vec<Vec<char>>) -> (r: Vec<(Vec<char>, Option<Vec<char>>)>)
    ensures
        kv_pairs_view(r@) == spec_kv_list(Seq::new(items@.len(), |i: int| items@[i]@)),
{
    let mut out: Vec<(Vec<char>, Option<Vec<char>>)> = Vec::new();
    let n = items.len();
    for i in 0..n
        invariant
            n == items@.len(),
            out@.len() == i,
            forall|j: int|
                0 <= j < i ==> #[trigger] kv_pairs_view(out@)[j] == spec_key_value(items@[j]@),
    {
        let pair = expect_maybe_key_value(&items[i]);
        let ghost prev_out = out@;
        out.push(pair);
        proof {
            assert forall|j: int|
                0 <= j <= i implies #[trigger] kv_pairs_view(out@)[j] == spec_key_value(
                items@[j]@,
            ) by {
                if j < i {
                    assert(out@[j] == prev_out[j]);
                    assert(kv_pairs_view(prev_out)[j] == spec_key_value(items@[j]@));
                    assert(kv_pairs_view(out@)[j] == (out@[j].0@, opt_chars_view(out@[j].1)));
                    assert(kv_pairs_view(prev_out)[j] == (prev_out[j].0@, opt_chars_view(
                        prev_out[j].1,
                    )));
                } else {
                    assert(out@[j] == pair);
                    assert(opt_chars_view(pair.1) == spec_key_value(items@[i as int]@).1);
                    assert(kv_pairs_view(out@)[j] == (pair.0@, opt_chars_view(pair.1)));
                }
            }
        }
    }
    proof {
        assert(kv_pairs_view(out@) =~= spec_kv_list(Seq::new(items@.len(), |i: int| items@[i]@)));
    }
    out
}

impl ClangArg {
    /// Parse one token, with the following token at hand; reports whether
    /// that following token was consumed.
    #[verifier::rlimit(100)]
    #[verifier::spinoff_prover]
    pub fn parse(token: &Vec<char>, next: Option<&Vec<char>>) -> (r: Option<(ClangArg, bool)>)
        ensures
            ({
                let next_view = match next {
                    Option::None => Option::None,
                    Option::Some(n) => Option::Some(n@),
                };
                match r {
                    Option::None => spec_parse_one(token@, next_view) is None,
                    Option::Some(parsed) => spec_parse_one(token@, next_view) == Option::Some(
                        (parsed.0@, parsed.1),
                    ),
                }
            }),
    {
        let lit_dash: Vec<char> = vec!['-'];
        proof {
            reveal_strlit("-");
            assert(lit_dash@ =~= "-"@);
        }
        if !chars_start_with(token, &lit_dash) {
            return Option::Some((ClangArg::Input(chars_dup(token)), false));
        }
        let lit_c: Vec<char> = vec!['-', 'c'];
        proof {
            reveal_strlit("-c");
            assert(lit_c@ =~= "-c"@);
        }
        if chars_eq(token, &lit_c) {
            return Option::Some((ClangArg::ModeCompile, false));
        }
        let lit_i: Vec<char> = vec!['-', 'I'];
        proof {
            reveal_strlit("-I");
            assert(lit_i@ =~= "-I"@);
        }
        if chars_eq(token, &lit_i) {
            return match next {
                Option::None => Option::None,
                Option::Some(n) => Option::Some((ClangArg::Include(chars_dup(n)), true)),
            };
        }
        let lit_isysroot: Vec<char> = vec!['-', 'i', 's', 'y', 's', 'r', 'o', 'o', 't'];
        proof {
            reveal_strlit("-isysroot");
            assert(lit_isysroot@ =~= "-isysroot"@);
        }
        if chars_eq(token, &lit_isysroot) {
            return match next {
                Option::None => Option::None,
                Option::Some(n) => Option::Some((ClangArg::IncludeSysroot(chars_dup(n)), true)),
            };
        }
        let lit_llow: Vec<char> = vec!['-', 'l'];
        proof {
            reveal_strlit("-l");
            assert(lit_llow@ =~= "-l"@);
        }
        if chars_eq(token, &lit_llow) {
            return match next {
                Option::None => Option::None,
                Option::Some(n) => Option::Some((ClangArg::LibName(chars_dup(n)), true)),
            };
        }
        let lit_lup: Vec<char> = vec!['-', 'L'];
        proof {
            reveal_strlit("-L");
            assert(lit_lup@ =~= "-L"@);
        }
        if chars_eq(token, &lit_lup) {
            return match next {
                Option::None => Option::None,
                Option::Some(n) => Option::Some((ClangArg::LibPath(chars_dup(n)), true)),
            };
        }
        let lit_arch: Vec<char> = vec!['-', 'a', 'r', 'c', 'h'];
        proof {
            reveal_strlit("-arch");
            assert(lit_arch@ =~= "-arch"@);
        }
        if chars_eq(token, &lit_arch) {
            return match next {
                Option::None => Option::None,
                Option::Some(n) => Option::Some((ClangArg::Arch(chars_dup(n)), true)),
            };
        }
        let lit_g_1: Vec<char> = vec!['-', 'g'];
        proof {
            reveal_strlit("-g");
            assert(lit_g_1@ =~= "-g"@);
        }
        let lit_g_2: Vec<char> = vec!['-', '-', 'd', 'e', 'b', 'u', 'g'];
        proof {
            reveal_strlit("--debug");
            assert(lit_g_2@ =~= "--debug"@);
        }
        if chars_eq(token, &lit_g_1) || chars_eq(token, &lit_g_2) {
            return Option::Some((ClangArg::Debug, false));
        }
        let lit_sh_1: Vec<char> = vec!['-', 's', 'h', 'a', 'r', 'e', 'd'];
        proof {
            reveal_strlit("-shared");
            assert(lit_sh_1@ =~= "-shared"@);
        }
        let lit_sh_2: Vec<char> = vec!['-', '-', 's', 'h', 'a', 'r', 'e', 'd'];
        proof {
            reveal_strlit("--shared");
            assert(lit_sh_2@ =~= "--shared"@);
        }
        if chars_eq(token, &lit_sh_1) || chars_eq(token, &lit_sh_2) {
            return Option::Some((ClangArg::LinkShared, false));
        }
        let lit_st_1: Vec<char> = vec!['-', 's', 't', 'a', 't', 'i', 'c'];
        proof {
            reveal_strlit("-static");
            assert(lit_st_1@ =~= "-static"@);
        }
        let lit_st_2: Vec<char> = vec!['-', '-', 's', 't', 'a', 't', 'i', 'c'];
        proof {
            reveal_strlit("--static");
            assert(lit_st_2@ =~= "--static"@);
        }
        if chars_eq(token, &lit_st_1) || chars_eq(token, &lit_st_2) {
            return Option::Some((ClangArg::LinkStatic, false));
        }
        let lit_mllvm: Vec<char> = vec!['-', 'm', 'l', 'l', 'v', 'm'];
        proof {
            reveal_strlit("-mllvm");
            assert(lit_mllvm@ =~= "-mllvm"@);
        }
        if chars_eq(token, &lit_mllvm) {
            return match next {
                Option::None => Option::None,
                Option::Some(n) => {
                    let kv = expect_maybe_key_value(n);
                    Option::Some((ClangArg::Backend(kv.0, kv.1), true))
                }
            };
        }
        let lit_fpic: Vec<char> = vec!['-', 'f', 'P', 'I', 'C'];
        proof {
            reveal_strlit("-fPIC");
            assert(lit_fpic@ =~= "-fPIC"@);
        }
        if chars_eq(token, &lit_fpic) {
            return Option::Some((ClangArg::FlagPIC, false));
        }
        let lit_fpie: Vec<char> = vec!['-', 'f', 'P', 'I', 'E'];
        proof {
            reveal_strlit("-fPIE");
            assert(lit_fpie@ =~= "-fPIE"@);
        }
        if chars_eq(token, &lit_fpie) {
            return Option::Some((ClangArg::FlagPIE, false));
        }
        let lit_w_1: Vec<char> = vec!['-', 'w'];
        proof {
            reveal_strlit("-w");
            assert(lit_w_1@ =~= "-w"@);
        }
        let lit_w_2: Vec<char> = vec!['-', '-', 'n', 'o', '-', 'w', 'a', 'r', 'n', 'i', 'n', 'g', 's'];
        proof {
            reveal_strlit("--no-warnings");
            assert(lit_w_2@ =~= "--no-warnings"@);
        }
        if chars_eq(token, &lit_w_1) || chars_eq(token, &lit_w_2) {
            return Option::Some((ClangArg::NoWarnings, false));
        }
        let lit_ped: Vec<char> = vec!['-', 'p', 'e', 'd', 'a', 'n', 't', 'i', 'c'];
        proof {
            reveal_strlit("-pedantic");
            assert(lit_ped@ =~= "-pedantic"@);
        }
        if chars_eq(token, &lit_ped) {
            return Option::Some((ClangArg::Pedantic, false));
        }
        let lit_pth: Vec<char> = vec!['-', 'p', 't', 'h', 'r', 'e', 'a', 'd'];
        proof {
            reveal_strlit("-pthread");
            assert(lit_pth@ =~= "-pthread"@);
        }
        if chars_eq(token, &lit_pth) {
            return Option::Some((ClangArg::POSIXThread, false));
        }
        let lit_o: Vec<char> = vec!['-', 'o'];
        proof {
            reveal_strlit("-o");
            assert(lit_o@ =~= "-o"@);
        }
        if chars_eq(token, &lit_o) {
            return match next {
                Option::None => Option::None,
                Option::Some(n) => Option::Some((ClangArg::Output(chars_dup(n)), true)),
            };
        }
        let lit_std: Vec<char> = vec!['-', 's', 't', 'd', '='];
        proof {
            reveal_strlit("-std=");
            assert(lit_std@ =~= "-std="@);
        }
        if chars_start_with(token, &lit_std) {
            let rest = chars_suffix(token, 5);
            return Option::Some((ClangArg::Standard(rest), false));
        }
        let lit_def: Vec<char> = vec!['-', 'D'];
        proof {
            reveal_strlit("-D");
            assert(lit_def@ =~= "-D"@);
        }
        if chars_start_with(token, &lit_def) {
            let rest = chars_suffix(token, 2);
            let kv = expect_maybe_key_value(&rest);
            return Option::Some((ClangArg::Define(kv.0, kv.1), false));
        }
        if chars_start_with(token, &lit_i) {
            let rest = chars_suffix(token, 2);
            return Option::Some((ClangArg::Include(rest), false));
        }
        let lit_wp: Vec<char> = vec!['-', 'W', 'p', ','];
        proof {
            reveal_strlit("-Wp,");
            assert(lit_wp@ =~= "-Wp,"@);
        }
        if chars_start_with(token, &lit_wp) {
            let rest = chars_suffix(token, 4);
            let pieces = split_commas(&rest);
            return Option::Some((ClangArg::Preprocessor(kv_list(&pieces)), false));
        }
        let lit_opt: Vec<char> = vec!['-', 'O'];
        proof {
            reveal_strlit("-O");
            assert(lit_opt@ =~= "-O"@);
        }
        if chars_start_with(token, &lit_opt) {
            let rest = chars_suffix(token, 2);
            return Option::Some((ClangArg::Optimization(rest), false));
        }
        let lit_march: Vec<char> = vec!['-', 'm', 'a', 'r', 'c', 'h', '='];
        proof {
            reveal_strlit("-march=");
            assert(lit_march@ =~= "-march="@);
        }
        if chars_start_with(token, &lit_march) {
            let rest = chars_suffix(token, 7);
            return Option::Some((ClangArg::MachineArch(rest), false));
        }
        if chars_start_with(token, &lit_llow) {
            let rest = chars_suffix(token, 2);
            return Option::Some((ClangArg::LibName(rest), false));
        }
        if chars_start_with(token, &lit_lup) {
            let rest = chars_suffix(token, 2);
            return Option::Some((ClangArg::LibPath(rest), false));
        }
        let lit_wl: Vec<char> = vec!['-', 'W', 'l', ','];
        proof {
            reveal_strlit("-Wl,");
            assert(lit_wl@ =~= "-Wl,"@);
        }
        if chars_start_with(token, &lit_wl) {
            let rest = chars_suffix(token, 4);
            let pieces = split_commas(&rest);
            return Option::Some((ClangArg::Linker(kv_list(&pieces)), false));
        }
        let lit_warn: Vec<char> = vec!['-', 'W'];
        proof {
            reveal_strlit("-W");
            assert(lit_warn@ =~= "-W"@);
        }
        if chars_start_with(token, &lit_warn) {
            let rest = chars_suffix(token, 2);
            let kv = expect_maybe_key_value(&rest);
            return Option::Some((ClangArg::Warning(kv.0, kv.1), false));
        }
        let lit_print: Vec<char> = vec!['-', 'p', 'r', 'i', 'n', 't', '-'];
        proof {
            reveal_strlit("-print-");
            assert(lit_print@ =~= "-print-"@);
        }
        if chars_start_with(token, &lit_print) {
            let rest = chars_suffix(token, 7);
            let kv = expect_maybe_key_value(&rest);
            return Option::Some((ClangArg::Print(kv.0, kv.1), false));
        }
        let lit_print2: Vec<char> = vec!['-', '-', 'p', 'r', 'i', 'n', 't', '-'];
        proof {
            reveal_strlit("--print-");
            assert(lit_print2@ =~= "--print-"@);
        }
        if chars_start_with(token, &lit_print2) {
            let rest = chars_suffix(token, 8);
            let kv = expect_maybe_key_value(&rest);
            return Option::Some((ClangArg::Print(kv.0, kv.1), false));
        }
        Option::None
    }

    /// Collect a whole token stream, or report the position-free failure of
    /// an unknown option or a missing follower.
    pub fn try_collect(tokens: &Vec<Vec<char>>) -> (r: Option<Vec<ClangArg>>)
        ensures
            ({
                let token_views = Seq::new(tokens@.len(), |i: int| tokens@[i]@);
                match r {
                    Option::None => spec_collect(token_views, Seq::empty()) is None,
                    Option::Some(v) => spec_collect(token_views, Seq::empty()) == Option::Some(
                        Seq::new(v@.len(), |i: int| v@[i]@),
                    ),
                }
            }),
    {
        let ghost token_views = Seq::new(tokens@.len(), |i: int| tokens@[i]@);
        let n = tokens.len();
        let mut out: Vec<ClangArg> = Vec::new();
        let mut i: usize = 0;
        proof {
            assert(token_views.subrange(0, token_views.len() as int) =~= token_views);
            assert(Seq::new(out@.len(), |k: int| out@[k]@) =~= Seq::<ClangArgSpec>::empty());
        }
        while i < n
            invariant
                n == tokens@.len(),
                i <= n,
                token_views == Seq::new(tokens@.len(), |k: int| tokens@[k]@),
                spec_collect(token_views, Seq::empty()) == spec_collect(
                    token_views.subrange(i as int, token_views.len() as int),
                    Seq::new(out@.len(), |k: int| out@[k]@),
                ),
            decreases n - i,
        {
            let ghost suffix = token_views.subrange(i as int, token_views.len() as int);
            proof {
                assert(suffix[0] == token_views[i as int]);
                assert(token_views[i as int] == tokens@[i as int]@);
                if i + 1 < n {
                    assert(suffix[1] == token_views[i + 1]);
                    assert(token_views[i + 1] == tokens@[i + 1]@);
                }
            }
            let next: Option<&Vec<char>> = if i + 1 < n {
                Option::Some(&tokens[i + 1])
            } else {
                Option::None
            };
            match Self::parse(&tokens[i], next) {
                Option::None => {
                    return Option::None;
                }
                Option::Some((arg, consumed)) => {
                    let ghost prev = Seq::new(out@.len(), |k: int| out@[k]@);
                    out.push(arg);
                    proof {
                        assert(Seq::new(out@.len(), |k: int| out@[k]@) =~= prev.push(
                            out@.last()@,
                        ));
                    }
                    let step: usize = if consumed {
                        2
                    } else {
                        1
                    };
                    proof {
                        if consumed {
                            assert(suffix.len() >= 2);
                            assert(suffix.subrange(2, suffix.len() as int) =~= token_views
                                .subrange(i + 2, token_views.len() as int));
                        } else {
                            assert(suffix.subrange(1, suffix.len() as int) =~= token_views
                                .subrange(i + 1, token_views.len() as int));
                        }
                    }
                    i = i + step;
                }
            }
        }
        proof {
            assert(token_views.subrange(n as int, token_views.len() as int).len() == 0);
        }
        Option::Some(out)
    }

    /// Collect a token stream known to be well formed.
    pub fn collect(tokens: &Vec<Vec<char>>) -> (r: Vec<ClangArg>)
        requires
            spec_collect(Seq::new(tokens@.len(), |i: int| tokens@[i]@), Seq::empty()) is Some,
        ensures
            spec_collect(Seq::new(tokens@.len(), |i: int| tokens@[i]@), Seq::empty())
                == Option::Some(Seq::new(r@.len(), |i: int| r@[i]@)),
    {
        match Self::try_collect(tokens) {
            Option::Some(v) => v,
            Option::None => {
                proof {
                    assert(false);
                }
                Vec::new()
            }
        }
    }
}

/// One captured compiler invocation: the working directory, whether the
/// C++ driver ran, and the recognized arguments.
#[derive(Debug, PartialEq, Eq)]
pub struct ClangInvocation {
    pub cwd: Vec<char>,
    pub cxx: bool,
    pub args: Vec<ClangArg>,
}


} // verus!
