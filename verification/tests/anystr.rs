use vscode_ssh::anystr::{any_str_to_string, anystr_none, anystr_some, AnyStr};

fn ok(_s: String) {}

fn takes_option<S: AnyStr>(opt: Option<S>) -> bool {
    opt.is_some()
}

#[test]
fn every_kind_of_string_is_taken() {
    let literal = "hello world";
    let owned = "hello world".to_string();
    ok(any_str_to_string(literal));
    {
        let borrowed = &owned;
        ok(any_str_to_string(borrowed))
    };
    ok(any_str_to_string(owned));
}

#[test]
fn the_characters_are_kept() {
    assert_eq!(any_str_to_string("hello world"), "hello world");
    assert_eq!(any_str_to_string(String::from("höst")), "höst");
    assert_eq!(any_str_to_string(&String::from("a/b")), "a/b");
    assert_eq!(any_str_to_string(""), "");
}

#[test]
fn borrow_str_reads_the_value() {
    assert_eq!("abc".borrow_str(), "abc");
    assert_eq!(String::from("abc").borrow_str(), "abc");
    assert_eq!((&String::from("abc")).borrow_str(), "abc");
}

#[test]
fn anystr_none_is_none() {
    assert_eq!(anystr_none(), None);
    assert!(!takes_option(anystr_none()));
}

#[test]
fn anystr_some_is_some() {
    assert_eq!(anystr_some("hello world"), Some("hello world"));
    assert_eq!(anystr_some("hello_world".to_string()), Some("hello_world".to_string()));
    assert!(takes_option(anystr_some("hello world")));
    assert!(takes_option(anystr_some("hello_world".to_string())));
}
