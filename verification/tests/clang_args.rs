//! Tests of the compiler-invocation parser.

use libra::clang::{ClangArg, ClangInvocation, Language};

fn chars(s: &str) -> Vec<char> {
    s.chars().collect()
}

fn tokens(words: &[&str]) -> Vec<Vec<char>> {
    words.iter().map(|w| chars(w)).collect()
}

#[test]
fn probe_recognizes_the_three_languages() {
    assert_eq!(Language::probe("c"), Some(Language::C));
    assert_eq!(Language::probe("cpp"), Some(Language::CPP));
    assert_eq!(Language::probe("cc"), Some(Language::CPP));
    assert_eq!(Language::probe("s"), Some(Language::Asm));
    assert_eq!(Language::probe("rs"), None);
    assert_eq!(Language::probe(""), None);
}

#[test]
fn plain_token_is_an_input() {
    let got = ClangArg::parse(&chars("main.c"), None).expect("input should parse");
    assert_eq!(got, (ClangArg::Input(chars("main.c")), false));
}

#[test]
fn exact_options_parse_without_consuming() {
    assert_eq!(
        ClangArg::parse(&chars("-c"), None),
        Some((ClangArg::ModeCompile, false))
    );
    assert_eq!(
        ClangArg::parse(&chars("--debug"), None),
        Some((ClangArg::Debug, false))
    );
    assert_eq!(
        ClangArg::parse(&chars("-fPIC"), None),
        Some((ClangArg::FlagPIC, false))
    );
    assert_eq!(
        ClangArg::parse(&chars("-pthread"), None),
        Some((ClangArg::POSIXThread, false))
    );
}

#[test]
fn output_option_consumes_its_follower() {
    let next = chars("a.out");
    let got = ClangArg::parse(&chars("-o"), Some(&next)).expect("output should parse");
    assert_eq!(got, (ClangArg::Output(chars("a.out")), true));
}

#[test]
fn output_option_without_follower_fails() {
    assert_eq!(ClangArg::parse(&chars("-o"), None), None);
}

#[test]
fn unknown_option_fails() {
    assert_eq!(ClangArg::parse(&chars("-totally-unknown"), None), None);
}

#[test]
fn attached_and_detached_includes_agree() {
    let detached_next = chars("/usr/include");
    let detached =
        ClangArg::parse(&chars("-I"), Some(&detached_next)).expect("detached include");
    assert_eq!(detached, (ClangArg::Include(chars("/usr/include")), true));
    let attached = ClangArg::parse(&chars("-I/usr/include"), None).expect("attached include");
    assert_eq!(attached, (ClangArg::Include(chars("/usr/include")), false));
}

#[test]
fn define_splits_at_the_first_equals_sign() {
    let got = ClangArg::parse(&chars("-DVERSION=1=2"), None).expect("define should parse");
    assert_eq!(
        got,
        (
            ClangArg::Define(chars("VERSION"), Some(chars("1=2"))),
            false
        )
    );
    let bare = ClangArg::parse(&chars("-DNDEBUG"), None).expect("bare define should parse");
    assert_eq!(bare, (ClangArg::Define(chars("NDEBUG"), None), false));
}

#[test]
fn linker_list_splits_on_commas() {
    let got = ClangArg::parse(&chars("-Wl,-rpath=/lib,-z"), None).expect("linker should parse");
    assert_eq!(
        got,
        (
            ClangArg::Linker(vec![
                (chars("-rpath"), Some(chars("/lib"))),
                (chars("-z"), None),
            ]),
            false
        )
    );
}

#[test]
fn preprocessor_list_splits_on_commas() {
    let got = ClangArg::parse(&chars("-Wp,-MD,FILE"), None).expect("preprocessor should parse");
    assert_eq!(
        got,
        (
            ClangArg::Preprocessor(vec![(chars("-MD"), None), (chars("FILE"), None)]),
            false
        )
    );
}

#[test]
fn print_options_parse_with_either_dash_count() {
    let one = ClangArg::parse(&chars("-print-search-dirs"), None).expect("one dash");
    assert_eq!(one, (ClangArg::Print(chars("search-dirs"), None), false));
    let two = ClangArg::parse(&chars("--print-targets"), None).expect("two dashes");
    assert_eq!(two, (ClangArg::Print(chars("targets"), None), false));
}

#[test]
fn collect_walks_a_whole_command_line() {
    let stream = tokens(&["-c", "-O2", "-o", "main.o", "main.c", "-lm"]);
    let got = ClangArg::try_collect(&stream).expect("command line should collect");
    assert_eq!(
        got,
        vec![
            ClangArg::ModeCompile,
            ClangArg::Optimization(chars("2")),
            ClangArg::Output(chars("main.o")),
            ClangArg::Input(chars("main.c")),
            ClangArg::LibName(chars("m")),
        ]
    );
    let also = ClangArg::collect(&stream);
    assert_eq!(also.len(), 5);
}

#[test]
fn collect_fails_on_an_unknown_option() {
    let stream = tokens(&["-c", "-zzz-unknown"]);
    assert_eq!(ClangArg::try_collect(&stream), None);
}

#[test]
fn collect_fails_on_a_trailing_consumer() {
    let stream = tokens(&["-o"]);
    assert_eq!(ClangArg::try_collect(&stream), None);
}

#[test]
fn invocation_carries_its_parts() {
    let inv = ClangInvocation {
        cwd: chars("/work"),
        cxx: false,
        args: vec![ClangArg::ModeCompile],
    };
    assert_eq!(inv.cwd, chars("/work"));
    assert!(!inv.cxx);
    assert_eq!(inv.args, vec![ClangArg::ModeCompile]);
}
