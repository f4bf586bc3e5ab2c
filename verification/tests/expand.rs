use derive_builder::expand::{expand, Expansion};
use derive_builder::syntax::Location;

fn tokens(text: &str) -> proc_macro2::TokenStream {
    text.parse::<proc_macro2::TokenStream>().unwrap()
}

#[test]
fn expand_writes_the_builder() {
    match expand(tokens("struct P { x: u8 }")) {
        Expansion::Code(text) => assert!(text.starts_with("#[derive(Debug)] #[allow(unused)] pub struct PBuilder { ")),
        other => panic!("unexpected {:?}", other),
    }
}

#[test]
fn expand_refuses_a_tuple_struct_at_its_name() {
    match expand(tokens("struct Pair(u8, u16);")) {
        Expansion::Error { message, location } => {
            assert_eq!(message, "this derive macro only works on `struct`s with named fields");
            assert_eq!(location, Location::StructIdent);
        }
        other => panic!("unexpected {:?}", other),
    }
}

#[test]
fn expand_reports_an_attribute_error_at_its_token() {
    match expand(tokens("struct C { #[builder(eac = \"arg\")] args: Vec<String> }")) {
        Expansion::Error { message, location } => {
            assert_eq!(message, "expected `builder(each = \"...\")`");
            assert_eq!(location, Location::AttrToken(0, 0, 0));
        }
        other => panic!("unexpected {:?}", other),
    }
}

#[test]
fn expand_panics_on_a_function() {
    assert!(matches!(expand(tokens("pub fn afn() {}")), Expansion::SyntaxPanic { .. }));
}

#[test]
fn expand_panics_on_an_invalid_each_name() {
    assert!(matches!(
        expand(tokens("struct C { #[builder(each = \"a b\")] v: Vec<u8> }")),
        Expansion::Panic
    ));
}
