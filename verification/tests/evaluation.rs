use cargoman::eval::{
    diagnostics, evaluate, judge, lookup_flag, lookup_option, matches_reference, parse_specifier,
    Predicate, Specifier,
};

fn is(name: &str) -> Predicate {
    Predicate::Is(name.to_string())
}

fn equal(name: &str, value: &str) -> Predicate {
    Predicate::Equal(name.to_string(), value.to_string())
}

fn not(inner: Predicate) -> Predicate {
    Predicate::Not(Box::new(inner))
}

fn triple(arch: &str, vendor: &str, os: &str, env: Option<&str>) -> Specifier {
    Specifier::Triple {
        arch: arch.to_string(),
        vendor: vendor.to_string(),
        os: os.to_string(),
        env: env.map(|e| e.to_string()),
    }
}

#[test]
fn architecture_is_anything_but_wasm32() {
    assert_eq!(lookup_flag("target_arch", "wasm32"), Some(false));
    assert_eq!(lookup_flag("target_arch", "x86_64"), Some(true));
    assert_eq!(lookup_flag("target_arch", ""), Some(true));
    assert_eq!(lookup_flag("target_arch", "wasm64"), Some(true));
}

#[test]
fn endianness_is_ignored() {
    assert_eq!(lookup_flag("target_endian", "little"), Some(true));
    assert_eq!(lookup_flag("target_endian", "big"), Some(true));
    assert_eq!(lookup_flag("target_endian", "nonsense"), Some(true));
}

#[test]
fn environment_is_gnu_or_unspecified() {
    assert_eq!(lookup_flag("target_env", ""), Some(true));
    assert_eq!(lookup_flag("target_env", "gnu"), Some(true));
    assert_eq!(lookup_flag("target_env", "musl"), Some(false));
    assert_eq!(lookup_flag("target_env", "msvc"), Some(false));
}

#[test]
fn family_is_unix() {
    assert_eq!(lookup_flag("target_family", "unix"), Some(true));
    assert_eq!(lookup_flag("target_family", "windows"), Some(false));
    assert_eq!(lookup_flag("target_family", "wasm"), Some(false));
}

#[test]
fn features_are_ignored() {
    assert_eq!(lookup_flag("target_feature", "sse2"), Some(true));
    assert_eq!(lookup_flag("target_feature", ""), Some(true));
}

#[test]
fn system_is_none_of_the_others() {
    for other in [
        "windows",
        "macos",
        "ios",
        "android",
        "freebsd",
        "dragonfly",
        "openbsd",
        "netbsd",
        "emscripten",
    ] {
        assert_eq!(lookup_flag("target_os", other), Some(false), "{}", other);
    }
    assert_eq!(lookup_flag("target_os", "linux"), Some(true));
    assert_eq!(lookup_flag("target_os", "redox"), Some(true));
    assert_eq!(lookup_flag("target_os", "Windows"), Some(true));
}

#[test]
fn pointer_width_is_ignored() {
    assert_eq!(lookup_flag("target_pointer_width", "64"), Some(true));
    assert_eq!(lookup_flag("target_pointer_width", "32"), Some(true));
}

#[test]
fn vendor_is_none_of_three() {
    assert_eq!(lookup_flag("target_vendor", "apple"), Some(false));
    assert_eq!(lookup_flag("target_vendor", "fortanix"), Some(false));
    assert_eq!(lookup_flag("target_vendor", "pc"), Some(false));
    assert_eq!(lookup_flag("target_vendor", "unknown"), Some(true));
    assert_eq!(lookup_flag("target_vendor", "sun"), Some(true));
}

#[test]
fn other_attributes_are_not_in_the_table() {
    assert_eq!(lookup_flag("target_os2", "linux"), None);
    assert_eq!(lookup_flag("feature", "std"), None);
    assert_eq!(lookup_flag("", ""), None);
    assert_eq!(lookup_flag("unix", ""), None);
}

#[test]
fn options_have_fixed_answers() {
    assert_eq!(lookup_option("debug_assertions"), Some(false));
    assert_eq!(lookup_option("test"), Some(true));
    assert_eq!(lookup_option("proc_macro"), Some(true));
    assert_eq!(lookup_option("unix"), Some(true));
    assert_eq!(lookup_option("windows"), Some(false));
}

#[test]
fn other_options_are_not_in_the_table() {
    assert_eq!(lookup_option("miri"), None);
    assert_eq!(lookup_option("target_os"), None);
    assert_eq!(lookup_option(""), None);
}

#[test]
fn leaves_evaluate_by_their_table() {
    assert_eq!(evaluate(&is("unix")), Ok(true));
    assert_eq!(evaluate(&is("windows")), Ok(false));
    assert_eq!(evaluate(&equal("target_os", "macos")), Ok(false));
    assert_eq!(evaluate(&equal("target_os", "linux")), Ok(true));
}

#[test]
fn unknown_names_fail_with_a_message_that_names_them() {
    assert_eq!(
        evaluate(&equal("target_os2", "linux")),
        Err(String::from("Unrecognised target flag: target_os2"))
    );
    assert_eq!(evaluate(&is("miri")), Err(String::from("Unrecognised target option: miri")));
}

#[test]
fn negation_negates() {
    assert_eq!(evaluate(&not(is("windows"))), Ok(true));
    assert_eq!(evaluate(&not(is("unix"))), Ok(false));
}

#[test]
fn negation_passes_failure_on() {
    assert_eq!(
        evaluate(&not(is("miri"))),
        Err(String::from("Unrecognised target option: miri"))
    );
    assert_eq!(
        evaluate(&not(not(equal("os", "linux")))),
        Err(String::from("Unrecognised target flag: os"))
    );
}

#[test]
fn double_negation_gives_the_same_outcome() {
    for leaf in ["unix", "windows", "test", "debug_assertions", "miri"] {
        assert_eq!(evaluate(&not(not(is(leaf)))), evaluate(&is(leaf)), "{}", leaf);
    }
    let nested = Predicate::Any(vec![is("windows"), equal("target_family", "unix")]);
    let twice = not(not(Predicate::Any(vec![is("windows"), equal("target_family", "unix")])));
    assert_eq!(evaluate(&twice), evaluate(&nested));
    assert_eq!(evaluate(&twice), Ok(true));
}

#[test]
fn any_is_true_when_one_child_is() {
    assert_eq!(evaluate(&Predicate::Any(vec![is("windows"), is("unix")])), Ok(true));
    assert_eq!(evaluate(&Predicate::Any(vec![is("unix"), is("windows")])), Ok(true));
    assert_eq!(evaluate(&Predicate::Any(vec![is("windows"), is("debug_assertions")])), Ok(false));
}

#[test]
fn any_of_nothing_is_false() {
    assert_eq!(evaluate(&Predicate::Any(vec![])), Ok(false));
}

#[test]
fn any_never_fails() {
    assert_eq!(evaluate(&Predicate::Any(vec![is("miri")])), Ok(false));
    assert_eq!(evaluate(&Predicate::Any(vec![is("miri"), is("unix")])), Ok(true));
    assert_eq!(evaluate(&Predicate::Any(vec![is("unix"), is("miri")])), Ok(true));
    assert_eq!(evaluate(&Predicate::Any(vec![not(is("miri")), is("windows")])), Ok(false));
}

#[test]
fn all_is_true_when_every_child_is() {
    assert_eq!(evaluate(&Predicate::All(vec![is("unix"), is("test")])), Ok(true));
    assert_eq!(evaluate(&Predicate::All(vec![is("unix"), is("windows")])), Ok(false));
    assert_eq!(evaluate(&Predicate::All(vec![is("windows"), is("unix")])), Ok(false));
}

#[test]
fn all_of_nothing_is_true() {
    assert_eq!(evaluate(&Predicate::All(vec![])), Ok(true));
}

#[test]
fn all_never_fails_and_a_failure_forces_false() {
    assert_eq!(evaluate(&Predicate::All(vec![is("miri")])), Ok(false));
    assert_eq!(evaluate(&Predicate::All(vec![is("unix"), is("miri")])), Ok(false));
    assert_eq!(evaluate(&Predicate::All(vec![is("miri"), is("unix")])), Ok(false));
    assert_eq!(evaluate(&not(Predicate::All(vec![is("miri"), is("unix")]))), Ok(true));
}

#[test]
fn wasm_and_not_emscripten_is_false() {
    let tree = Predicate::All(vec![
        equal("target_arch", "wasm32"),
        not(equal("target_os", "emscripten")),
    ]);
    assert_eq!(evaluate(&tree), Ok(false));
}

#[test]
fn leaves_and_negations_swallow_nothing() {
    assert_eq!(diagnostics(&is("unix")), Vec::<String>::new());
    assert_eq!(diagnostics(&is("miri")), Vec::<String>::new());
    assert_eq!(diagnostics(&not(equal("os", "linux"))), Vec::<String>::new());
}

#[test]
fn any_reports_the_failures_it_swallows() {
    let tree = Predicate::Any(vec![equal("target_os2", "linux")]);
    assert_eq!(evaluate(&tree), Ok(false));
    assert_eq!(
        diagnostics(&tree),
        vec![String::from("Unrecognised target flag: target_os2")]
    );
}

#[test]
fn every_child_is_looked_at() {
    let tree = Predicate::Any(vec![is("unix"), is("miri"), is("unix"), equal("os", "linux")]);
    assert_eq!(evaluate(&tree), Ok(true));
    assert_eq!(
        diagnostics(&tree),
        vec![
            String::from("Unrecognised target option: miri"),
            String::from("Unrecognised target flag: os"),
        ]
    );
    let tree = Predicate::All(vec![is("windows"), is("miri")]);
    assert_eq!(evaluate(&tree), Ok(false));
    assert_eq!(diagnostics(&tree), vec![String::from("Unrecognised target option: miri")]);
}

#[test]
fn swallowed_failures_come_in_the_order_of_the_children() {
    let inner = Predicate::All(vec![is("a"), is("unix")]);
    let tree = Predicate::Any(vec![not(Predicate::Any(vec![is("b")])), inner, not(is("c"))]);
    assert_eq!(evaluate(&tree), Ok(true));
    assert_eq!(
        diagnostics(&tree),
        vec![
            String::from("Unrecognised target option: b"),
            String::from("Unrecognised target option: a"),
            String::from("Unrecognised target option: c"),
        ]
    );
}

#[test]
fn a_triple_is_judged_by_vendor_and_system() {
    assert_eq!(matches_reference(&triple("x86_64", "unknown", "linux", Some("gnu"))), Ok(true));
    assert_eq!(matches_reference(&triple("wasm32", "unknown", "linux", None)), Ok(true));
    assert_eq!(matches_reference(&triple("", "unknown", "linux", Some("msvc"))), Ok(true));
    assert_eq!(matches_reference(&triple("x86_64", "pc", "linux", Some("gnu"))), Ok(false));
    assert_eq!(matches_reference(&triple("x86_64", "unknown", "macos", Some("gnu"))), Ok(false));
    assert_eq!(matches_reference(&triple("x86_64", "Unknown", "linux", Some("gnu"))), Ok(false));
    assert_eq!(matches_reference(&triple("x86_64", "linux", "unknown", None)), Ok(false));
}

#[test]
fn an_expression_is_judged_by_evaluation() {
    assert_eq!(matches_reference(&Specifier::Expression(is("unix"))), Ok(true));
    assert_eq!(
        matches_reference(&Specifier::Expression(is("miri"))),
        Err(String::from("Unrecognised target option: miri"))
    );
}

#[test]
fn judge_wraps_the_diagnostic_of_the_parser() {
    assert_eq!(
        judge(Err(String::from("boom"))),
        Err(String::from("Failed to parse target: boom"))
    );
    assert_eq!(judge(Err(String::new())), Err(String::from("Failed to parse target: ")));
}

#[test]
fn judge_gives_a_specifier_its_verdict() {
    assert_eq!(judge(Ok(triple("x86_64", "unknown", "linux", Some("gnu")))), Ok(true));
    assert_eq!(judge(Ok(Specifier::Expression(is("windows")))), Ok(false));
    assert_eq!(
        judge(Ok(Specifier::Expression(equal("os", "linux")))),
        Err(String::from("Unrecognised target flag: os"))
    );
}

#[test]
fn parsing_reads_triples() {
    assert_eq!(
        parse_specifier("x86_64-unknown-linux-gnu"),
        Ok(triple("x86_64", "unknown", "linux", Some("gnu")))
    );
    assert_eq!(
        parse_specifier("sparcv9-sun-solaris"),
        Ok(triple("sparcv9", "sun", "solaris", None))
    );
}

#[test]
fn parsing_reads_expressions() {
    assert_eq!(parse_specifier("cfg(unix)"), Ok(Specifier::Expression(is("unix"))));
    assert_eq!(
        parse_specifier("cfg(not(any(target_os = \"macos\", windows)))"),
        Ok(Specifier::Expression(not(Predicate::Any(vec![
            equal("target_os", "macos"),
            is("windows"),
        ]))))
    );
    assert_eq!(
        parse_specifier("cfg(all(a = b, not(c)))"),
        Ok(Specifier::Expression(Predicate::All(vec![equal("a", "b"), not(is("c"))])))
    );
}

#[test]
fn parsing_rejects_other_text() {
    assert!(parse_specifier("x86_64").is_err());
    assert!(parse_specifier("cfg()").is_err());
    assert!(parse_specifier("cfg(unix) trailing").is_err());
}

#[test]
fn a_copy_is_the_same_tree() {
    let tree = Predicate::Any(vec![
        not(Predicate::All(vec![is("unix"), equal("target_os", "linux")])),
        Predicate::Any(vec![]),
        is("miri"),
    ]);
    let copy = tree.clone();
    assert_eq!(copy, tree);
    assert_eq!(evaluate(&copy), evaluate(&tree));
    assert_eq!(diagnostics(&copy), diagnostics(&tree));
}

#[test]
fn a_copy_of_a_specifier_is_the_same_specifier() {
    let with_environment = triple("x86_64", "unknown", "linux", Some("gnu"));
    assert_eq!(with_environment.clone(), with_environment);
    let without_environment = triple("sparcv9", "sun", "solaris", None);
    assert_eq!(without_environment.clone(), without_environment);
    let expression = Specifier::Expression(not(is("windows")));
    assert_eq!(expression.clone(), expression);
}
