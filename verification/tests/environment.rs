use rruxwry::command::environment::{
    flags_from_words, parse_flags, Environment, EnvironmentFlags, Resolution, Variable, Warning,
};

fn resolve_rustflags(environment: &Environment) -> Resolution {
    Variable::Rustflags.resolve(environment)
}

fn resolve_rustdocflags(environment: &Environment) -> Resolution {
    Variable::Rustdocflags.resolve(environment)
}

fn environment(variables: &[(&str, &[u8])]) -> Environment {
    let mut environment = Environment::new();
    for &(name, value) in variables {
        environment.insert(name.as_bytes().to_vec(), value.to_vec());
    }
    environment
}

fn words(words: &[&str]) -> Option<Vec<String>> {
    Some(words.iter().map(|&word| word.to_owned()).collect())
}

fn confusable(found: &str, meant: &str) -> Warning {
    Warning::Confusable { found: found.to_owned(), meant: meant.to_owned() }
}

fn malformed(variable: &str) -> Warning {
    Warning::Malformed { variable: variable.to_owned() }
}

fn not_text(variable: &str) -> Warning {
    Warning::NotText { variable: variable.to_owned() }
}

#[test]
fn new_environment_holds_nothing() {
    let environment = Environment::new();
    assert!(!environment.contains(b"RUSTFLAGS"));
    assert_eq!(environment.get(b"RUSTFLAGS"), None);
    assert_eq!(environment.get(b""), None);
}

#[test]
fn environment_holds_what_was_inserted() {
    let environment = environment(&[("A", b"1"), ("B", b"\xff"), ("", b"")]);
    assert!(environment.contains(b"A"));
    assert!(environment.contains(b"B"));
    assert!(environment.contains(b""));
    assert!(!environment.contains(b"a"));
    assert!(!environment.contains(b"1"));
    assert_eq!(environment.get(b"A"), Some(&b"1".to_vec()));
    assert_eq!(environment.get(b"B"), Some(&b"\xff".to_vec()));
    assert_eq!(environment.get(b""), Some(&Vec::new()));
    assert_eq!(environment.get(b"C"), None);
}

#[test]
fn environment_insert_replaces_the_value() {
    let mut environment = environment(&[("A", b"1"), ("B", b"2")]);
    environment.insert(b"A".to_vec(), b"3".to_vec());
    assert_eq!(environment.get(b"A"), Some(&b"3".to_vec()));
    assert_eq!(environment.get(b"B"), Some(&b"2".to_vec()));
}

#[test]
fn unset_variable_supplies_no_flags_and_no_warning() {
    let resolved = resolve_rustflags(&Environment::new());
    assert_eq!(resolved, Resolution { flags: None, warnings: vec![] });
    let resolved = resolve_rustdocflags(&environment(&[("RUSTFLAGS", b"-O")]));
    assert_eq!(resolved, Resolution { flags: None, warnings: vec![] });
}

#[test]
fn empty_variable_supplies_no_words_which_is_not_the_same_as_unset() {
    let resolved = resolve_rustflags(&environment(&[("RUSTFLAGS", b"")]));
    assert_eq!(resolved, Resolution { flags: words(&[]), warnings: vec![] });
    let resolved = resolve_rustflags(&environment(&[("RUSTFLAGS", b"  \t ")]));
    assert_eq!(resolved, Resolution { flags: words(&[]), warnings: vec![] });
}

#[test]
fn confusable_name_alone_supplies_no_flags_and_warns() {
    let resolved = resolve_rustflags(&environment(&[("RUST_FLAGS", b"--cfg foo")]));
    assert_eq!(resolved.flags, None);
    assert_eq!(resolved.warnings, vec![confusable("RUST_FLAGS", "RUSTFLAGS")]);
    let message = resolved.warnings[0].message();
    assert!(message.contains("`RUST_FLAGS`"));
    assert!(message.contains("`RUSTFLAGS`"));
}

#[test]
fn confusable_names_are_reported_in_their_order() {
    let environment = environment(&[
        ("RUSTC_FLAGS", b"a"),
        ("RUSTFLAGS", b"-O"),
        ("RUST_FLAGS", b"b"),
        ("RUSTDOC_FLAGS", b"c"),
    ]);
    let resolved = resolve_rustflags(&environment);
    assert_eq!(resolved.flags, words(&["-O"]));
    assert_eq!(
        resolved.warnings,
        vec![confusable("RUST_FLAGS", "RUSTFLAGS"), confusable("RUSTC_FLAGS", "RUSTFLAGS")]
    );
    let resolved = resolve_rustdocflags(&environment);
    assert_eq!(resolved.flags, None);
    assert_eq!(resolved.warnings, vec![confusable("RUSTDOC_FLAGS", "RUSTDOCFLAGS")]);
}

#[test]
fn every_confusable_name_of_rustflags_is_known() {
    let environment =
        environment(&[("RUSTCFLAGS", b""), ("RUSTC_FLAGS", b""), ("RUST_FLAGS", b"")]);
    let resolved = resolve_rustflags(&environment);
    assert_eq!(
        resolved.warnings,
        vec![
            confusable("RUST_FLAGS", "RUSTFLAGS"),
            confusable("RUSTCFLAGS", "RUSTFLAGS"),
            confusable("RUSTC_FLAGS", "RUSTFLAGS"),
        ]
    );
}

#[test]
fn words_are_split_as_a_shell_splits_them() {
    let resolved = resolve_rustflags(&environment(&[("RUSTFLAGS", b"--cfg foo --cfg 'bar baz'")]));
    assert_eq!(resolved.flags, words(&["--cfg", "foo", "--cfg", "bar baz"]));
    assert_eq!(resolved.warnings, vec![]);
}

#[test]
fn escapes_and_double_quotes_are_honoured() {
    let resolved =
        resolve_rustdocflags(&environment(&[("RUSTDOCFLAGS", b"a\\ b \"c d\"  -Zx=\"\"")]));
    assert_eq!(resolved.flags, words(&["a b", "c d", "-Zx="]));
    assert_eq!(resolved.warnings, vec![]);
}

#[test]
fn words_beyond_ascii_are_kept() {
    let resolved =
        resolve_rustflags(&environment(&[("RUSTFLAGS", "--cfg caf\u{e9}".as_bytes())]));
    assert_eq!(resolved.flags, words(&["--cfg", "caf\u{e9}"]));
}

#[test]
fn unbalanced_quoting_supplies_no_flags_and_warns() {
    for value in [&b"--cfg 'foo"[..], b"\"", b"a \\", b"'a' \"b"] {
        let resolved = resolve_rustflags(&environment(&[("RUSTFLAGS", value)]));
        assert_eq!(resolved.flags, None);
        assert_eq!(resolved.warnings, vec![malformed("RUSTFLAGS")]);
    }
}

#[test]
fn value_that_is_not_text_supplies_no_flags_and_warns() {
    for value in [&b"\xff"[..], b"--cfg foo \xc3", b"\xed\xa0\x80", b"a\x80b"] {
        let resolved = resolve_rustdocflags(&environment(&[("RUSTDOCFLAGS", value)]));
        assert_eq!(resolved.flags, None);
        assert_eq!(resolved.warnings, vec![not_text("RUSTDOCFLAGS")]);
    }
}

#[test]
fn warnings_for_confusables_come_before_the_warning_for_the_value() {
    let environment = environment(&[("RUSTDOC_FLAGS", b""), ("RUSTDOCFLAGS", b"'")]);
    let resolved = resolve_rustdocflags(&environment);
    assert_eq!(resolved.flags, None);
    assert_eq!(
        resolved.warnings,
        vec![confusable("RUSTDOC_FLAGS", "RUSTDOCFLAGS"), malformed("RUSTDOCFLAGS")]
    );
}

#[test]
fn parse_flags_reads_any_variable() {
    let environment = environment(&[("FLAGS", b"x y"), ("FLAG", b"z"), ("flags", b"w")]);
    let resolved = parse_flags("FLAGS", &["FLAG", "FLAGZ", "flags"], &environment);
    assert_eq!(resolved.flags, words(&["x", "y"]));
    assert_eq!(resolved.warnings, vec![confusable("FLAG", "FLAGS"), confusable("flags", "FLAGS")]);
    let resolved = parse_flags("FLAGZ", &[], &environment);
    assert_eq!(resolved, Resolution { flags: None, warnings: vec![] });
}

#[test]
fn parse_flags_matches_names_to_the_letter() {
    let environment = environment(&[("rustflags", b"a"), ("RUSTFLAGS ", b"b")]);
    assert_eq!(resolve_rustflags(&environment), Resolution { flags: None, warnings: vec![] });
}

#[test]
fn flags_from_words_keeps_the_words() {
    let resolved = flags_from_words("RUSTFLAGS", words(&["a", "b c"]), vec![]);
    assert_eq!(resolved, Resolution { flags: words(&["a", "b c"]), warnings: vec![] });
    let earlier = vec![confusable("RUST_FLAGS", "RUSTFLAGS")];
    let resolved = flags_from_words("RUSTFLAGS", words(&[]), earlier.clone());
    assert_eq!(resolved, Resolution { flags: words(&[]), warnings: earlier });
}

#[test]
fn flags_from_words_reports_a_failed_split() {
    let resolved = flags_from_words("RUSTFLAGS", None, vec![]);
    assert_eq!(resolved, Resolution { flags: None, warnings: vec![malformed("RUSTFLAGS")] });
    let earlier = vec![confusable("RUST_FLAGS", "RUSTFLAGS")];
    let resolved = flags_from_words("RUSTFLAGS", None, earlier);
    assert_eq!(
        resolved.warnings,
        vec![confusable("RUST_FLAGS", "RUSTFLAGS"), malformed("RUSTFLAGS")]
    );
}

#[test]
fn resolution_clone_is_equal() {
    let resolved = Resolution {
        flags: words(&["a", "b c", ""]),
        warnings: vec![
            confusable("RUST_FLAGS", "RUSTFLAGS"),
            not_text("RUSTFLAGS"),
            malformed("RUSTFLAGS"),
        ],
    };
    assert_eq!(resolved.clone(), resolved);
    let nothing = Resolution { flags: None, warnings: vec![] };
    assert_eq!(nothing.clone(), nothing);
    assert_ne!(nothing, resolved);
}

#[test]
fn warning_messages() {
    assert_eq!(
        confusable("RUST_FLAGS", "RUSTFLAGS").message(),
        "rruxwry does not read the `RUST_FLAGS` environment variable; \
         you might have meant `RUSTFLAGS`"
    );
    assert_eq!(
        not_text("RUSTFLAGS").message(),
        "the environment variable `RUSTFLAGS` does not contain valid UTF-8; \
         ignoring all potential flags"
    );
    assert_eq!(
        malformed("RUSTDOCFLAGS").message(),
        "the environment variable `RUSTDOCFLAGS` is not well-formed; \
         ignoring all potential flags"
    );
}

#[test]
fn variables_have_their_names() {
    assert_eq!(Variable::Rustflags.key(), "RUSTFLAGS");
    assert_eq!(Variable::Rustdocflags.key(), "RUSTDOCFLAGS");
}

#[test]
fn variables_have_their_confusable_names() {
    assert_eq!(Variable::Rustflags.confusables(), ["RUST_FLAGS", "RUSTCFLAGS", "RUSTC_FLAGS"]);
    assert_eq!(Variable::Rustdocflags.confusables(), ["RUSTDOC_FLAGS"]);
}

#[test]
fn resolving_twice_gives_the_same_flags() {
    let environment = environment(&[("RUSTFLAGS", b"--cfg foo"), ("RUST_FLAGS", b"")]);
    assert_eq!(resolve_rustflags(&environment), resolve_rustflags(&environment));
    let mut flags = EnvironmentFlags::new(environment);
    let first = flags.flags(Variable::Rustflags);
    let second = flags.flags(Variable::Rustflags);
    assert_eq!(first.flags, words(&["--cfg", "foo"]));
    assert_eq!(second.flags, first.flags);
    assert_eq!(flags.flags(Variable::Rustflags).flags, first.flags);
}

#[test]
fn remembered_flags_warn_only_once() {
    let mut flags =
        EnvironmentFlags::new(environment(&[("RUST_FLAGS", b"-O"), ("RUSTDOCFLAGS", b"'")]));
    assert_eq!(
        flags.flags(Variable::Rustflags).warnings,
        vec![confusable("RUST_FLAGS", "RUSTFLAGS")]
    );
    assert_eq!(flags.flags(Variable::Rustflags), Resolution { flags: None, warnings: vec![] });
    assert_eq!(flags.flags(Variable::Rustdocflags).warnings, vec![malformed("RUSTDOCFLAGS")]);
    assert_eq!(flags.flags(Variable::Rustdocflags), Resolution { flags: None, warnings: vec![] });
    assert_eq!(flags.flags(Variable::Rustflags), Resolution { flags: None, warnings: vec![] });
}

#[test]
fn the_two_variables_are_remembered_apart() {
    let mut flags =
        EnvironmentFlags::new(environment(&[("RUSTFLAGS", b"a"), ("RUSTDOCFLAGS", b"b c")]));
    assert_eq!(flags.flags(Variable::Rustdocflags).flags, words(&["b", "c"]));
    assert_eq!(flags.flags(Variable::Rustflags).flags, words(&["a"]));
    assert_eq!(flags.flags(Variable::Rustdocflags).flags, words(&["b", "c"]));
    assert_eq!(flags.flags(Variable::Rustflags).flags, words(&["a"]));
}
