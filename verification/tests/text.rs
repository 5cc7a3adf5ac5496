use rruxwry::text::{clone_strings, str_eq};

#[test]
fn str_eq_compares_every_character() {
    assert!(str_eq("", ""));
    assert!(str_eq("proc-macro", "proc-macro"));
    assert!(str_eq("caf\u{e9}", "caf\u{e9}"));
    assert!(!str_eq("a", ""));
    assert!(!str_eq("", "a"));
    assert!(!str_eq("abc", "abd"));
    assert!(!str_eq("abc", "ab"));
    assert!(!str_eq("D", "d"));
    assert!(!str_eq("caf\u{e9}", "caf\u{e8}"));
}

#[test]
fn clone_strings_copies_in_order() {
    let strings = vec!["b".to_owned(), String::new(), "a".to_owned(), "b".to_owned()];
    assert_eq!(clone_strings(&strings), strings);
    assert_eq!(clone_strings(&Vec::new()), Vec::<String>::new());
}
