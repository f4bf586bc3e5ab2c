use derive_builder::analyze::analyze;
use derive_builder::parse::{check_named, parse, try_parse, ParseError};
use derive_builder::syntax::{Ast, Fields, Location, PathArguments, TypeArg};

fn tokens(text: &str) -> proc_macro2::TokenStream {
    text.parse::<proc_macro2::TokenStream>().unwrap()
}

const COMMAND: &str = "pub struct Command {
    executable: String,
    args: Vec<String>,
    env: Vec<String>,
    current_dir: String,
}";

#[test]
fn valid_syntax() {
    let ast = parse(tokens(COMMAND));
    assert!(&ast.is_ok());
}

#[test]
#[should_panic]
fn invalid_syntax() {
    let input = tokens("pub fn afn() {}");

    let _ = parse(input);
}

#[test]
fn try_parse_reads_a_named_struct() {
    let ast = try_parse(tokens(COMMAND)).unwrap();
    assert_eq!(ast.ident, "Command");
    assert!(matches!(ast.fields, Fields::Named(ref v) if v.len() == 4));
}

#[test]
fn try_parse_refuses_a_unit_struct() {
    match try_parse(tokens("struct UnitStruct;")) {
        Err(ParseError::NotNamedFields { ident }) => assert_eq!(ident, "UnitStruct"),
        other => panic!("unexpected {:?}", other),
    }
}

#[test]
fn test_unit_struct() {
    let res = parse(tokens("struct UnitStruct;"));
    assert!(&res.is_err());
    match &res {
        Err(e) => {
            assert!(e.to_string().contains("only works on `struct`s with named fields"));
        }
        _ => panic!("Should have returned an Err"),
    }
}

#[test]
fn valid_model() {
    let item_struct = parse(tokens(COMMAND)).unwrap();
    let model = analyze(item_struct);
    assert_eq!(&model.struct_ident, &model.ast.ident);
    let mut iter = model.named_fields.iter();

    let mut validate_name = |name: &str| {
        if let Some(id) = iter.next().unwrap().ident.as_ref() {
            assert_eq!(id.to_string(), name.to_string());
        } else {
            panic!(r#"Expecting "{}" but no name"#, name);
        }
    };
    validate_name("executable");
    validate_name("args");
    validate_name("env");
    validate_name("current_dir");
}

#[test]
fn try_parse_reports_a_function() {
    match try_parse(tokens("pub fn afn() {}")) {
        Err(ParseError::Syntax { message }) => assert!(!message.is_empty()),
        other => panic!("expected a syntax error, got {:?}", other),
    }
}

#[test]
fn parse_rejects_a_tuple_struct() {
    match parse(tokens("struct Pair(u8, u8);")) {
        Err(ParseError::NotNamedFields { ident }) => assert_eq!(ident, "Pair"),
        other => panic!("expected a named-fields error, got {:?}", other),
    }
}

#[test]
fn check_named_keeps_a_named_struct() {
    let ast = Ast { ident: "S".to_string(), fields: Fields::Named(Vec::new()) };
    let res = check_named(ast).unwrap();
    assert_eq!(res.ident, "S");
    assert!(matches!(res.fields, Fields::Named(ref v) if v.is_empty()));
}

#[test]
fn check_named_refuses_a_unit_struct() {
    let ast = Ast { ident: "U".to_string(), fields: Fields::Unit };
    match check_named(ast) {
        Err(e @ ParseError::NotNamedFields { .. }) => {
            assert_eq!(
                e.to_string(),
                "this derive macro only works on `struct`s with named fields"
            );
        }
        other => panic!("unexpected {:?}", other),
    }
}

#[test]
fn parse_reads_types_and_attributes() {
    let ast = parse(tokens(
        "struct S { #[builder(each = \"arg\")] args: Vec<String>, dir: Option<std::path::PathBuf>, n: u8, t: (u8, u8) }",
    ))
    .unwrap();
    let fields = match &ast.fields {
        Fields::Named(v) => v,
        _ => panic!("named fields expected"),
    };
    assert_eq!(fields.len(), 4);

    let args = &fields[0];
    assert_eq!(args.ident.as_deref(), Some("args"));
    assert_eq!(args.ty.tokens, "Vec < String >");
    let segments = args.ty.path.as_ref().unwrap();
    assert_eq!(segments.len(), 1);
    assert_eq!(segments[0].ident, "Vec");
    match &segments[0].arguments {
        PathArguments::AngleBracketed(a) => match &a[0] {
            TypeArg::Type { tokens, debug, path, location } => {
                assert_eq!(*location, Location::Argument(0, 0, 0));
                assert_eq!(tokens, "String");
                assert!(debug.starts_with("Type(Path("));
                assert_eq!(path.as_ref().unwrap(), &vec!["String".to_string()]);
            }
            other => panic!("unexpected {:?}", other),
        },
        other => panic!("unexpected {:?}", other),
    }
    assert_eq!(args.attrs.len(), 1);
    assert_eq!(args.attrs[0].path, vec!["builder".to_string()]);
    let group = args.attrs[0].group.as_ref().unwrap();
    assert_eq!(group.len(), 3);

    let dir = &fields[1];
    match &dir.ty.path.as_ref().unwrap()[0].arguments {
        PathArguments::AngleBracketed(a) => match &a[0] {
            TypeArg::Type { path, .. } => {
                assert_eq!(
                    path.as_ref().unwrap(),
                    &vec!["std".to_string(), "path".to_string(), "PathBuf".to_string()]
                );
            }
            other => panic!("unexpected {:?}", other),
        },
        other => panic!("unexpected {:?}", other),
    }

    assert!(matches!(fields[2].ty.path.as_ref().unwrap()[0].arguments, PathArguments::Bare));
    assert!(fields[3].ty.path.is_none());
    assert_eq!(fields[3].ty.tokens, "(u8 , u8)");
}

#[test]
fn parse_keeps_the_group_error_of_an_attribute() {
    let ast = parse(tokens("struct S { #[doc = \"x\"] v: Vec<u8> }")).unwrap();
    let fields = match &ast.fields {
        Fields::Named(v) => v,
        _ => panic!("named fields expected"),
    };
    assert_eq!(fields[0].attrs[0].path, vec!["doc".to_string()]);
    assert!(fields[0].attrs[0].group.is_err());
}

#[test]
fn enum_and_union_are_refused_at_their_name() {
    for (text, name) in [("enum E { A, B }", "E"), ("union U { a: u8 }", "U")] {
        match try_parse(tokens(text)) {
            Err(e @ ParseError::NotAStruct { .. }) => {
                assert!(matches!(e, ParseError::NotAStruct { ref ident } if ident == name));
                assert_eq!(e.to_string(), "this derive macro only works on `struct`s with named fields");
                assert_eq!(e.location(), Location::StructIdent);
            }
            other => panic!("unexpected {:?}", other),
        }
        assert!(matches!(parse(tokens(text)), Err(ParseError::NotAStruct { .. })));
    }
}

#[test]
fn parse_locates_the_model() {
    let ast = parse(tokens("struct S { a: u8, #[builder(each = \"x\")] b: Vec<u8> }")).unwrap();
    let fields = match &ast.fields {
        Fields::Named(v) => v,
        _ => panic!("named fields expected"),
    };
    assert_eq!(fields[1].ty.location, Location::FieldType(1));
    assert_eq!(fields[1].ty.path.as_ref().unwrap()[0].location, Location::Segment(1, 0));
    assert_eq!(fields[1].attrs[0].location, Location::AttrGroup(1, 0));
    let group = fields[1].attrs[0].group.as_ref().unwrap();
    assert_eq!(group[2].location, Location::AttrToken(1, 0, 2));
}

#[test]
fn analyze_names_the_builder() {
    let model = analyze(parse(tokens(COMMAND)).unwrap());
    assert_eq!(model.builder_ident, "CommandBuilder");
}
