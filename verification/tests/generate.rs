use derive_builder::analyze::analyze;
use derive_builder::generate::{
    extract_inner_type_of_field, generate, generate_panics, is_optional_field, is_repeated_field,
    literal_from_builder_each_attribute, Diagnostic, GenerateError, Outcome,
};
use derive_builder::parse::parse;
use derive_builder::syntax::{
    Ast, Attr, FieldDef, FieldType, Fields, Location, PathArguments, Segment, Token, TokenKind, TypeArg,
};
use derive_builder::text::{append_decimal, is_valid_ident, remove_quotes, str_eq};

fn model_of(text: &str) -> derive_builder::analyze::StructModel {
    let ast = parse(text.parse::<proc_macro2::TokenStream>().unwrap()).unwrap();
    analyze(ast)
}

fn generated(text: &str) -> Result<String, GenerateError> {
    generated_at(text).map_err(|d| d.error)
}

fn generated_at(text: &str) -> Result<String, Diagnostic> {
    let model = model_of(text);
    assert!(!generate_panics(&model));
    generate(&model)
}

const COMMAND: &str = "pub struct Command {
    executable: String,
    args: Vec<String>,
    env: Vec<String>,
    current_dir: Option<String>,
}";

const COMMAND_BUILDER: &str = "#[derive(Debug)] #[allow(unused)] pub struct CommandBuilder { \
executable: std::option::Option<String>, args: std::option::Option<Vec < String >>, \
env: std::option::Option<Vec < String >>, current_dir: Option < String >, } \
impl Command { pub fn builder() -> CommandBuilder { CommandBuilder { \
executable: std::option::Option::None, args: std::option::Option::None, \
env: std::option::Option::None, current_dir: std::option::Option::None, } } } \
impl CommandBuilder { \
fn executable(&mut self, executable: String) -> &mut Self { self.executable = Some(executable); self } \
fn args(&mut self, args: Vec < String >) -> &mut Self { self.args = std::option::Option::Some(args); self } \
fn env(&mut self, env: Vec < String >) -> &mut Self { self.env = std::option::Option::Some(env); self } \
fn current_dir(&mut self, current_dir: String) -> &mut Self { self.current_dir = std::option::Option::Some(current_dir); self } \
fn build(&mut self) -> std::result::Result<Command, std::boxed::Box<dyn std::error::Error>> { \
let executable = if let Some(v) = self.executable.take() { v } else { return Err(\"Command field: `executable` not set\".into()); }; \
let args = if let Some(v) = self.args.take() { v } else { return Err(\"Command field: `args` not set\".into()); }; \
let env = if let Some(v) = self.env.take() { v } else { return Err(\"Command field: `env` not set\".into()); }; \
let current_dir = self.current_dir.take(); \
Ok(Command { executable, args, env, current_dir }) } }";

#[test]
fn generates_the_command_builder() {
    let text = generated(COMMAND).unwrap();
    assert_eq!(text, COMMAND_BUILDER);
}

#[test]
fn generated_text_is_valid_rust() {
    let text = generated(COMMAND).unwrap();
    let file = syn::parse_file(&text).unwrap();
    assert_eq!(file.items.len(), 3);
}

#[test]
fn each_attribute_adds_a_setter_for_one_item() {
    let text = generated(
        "struct C { #[builder(each = \"arg\")] args: Vec<String> }",
    )
    .unwrap();
    assert!(text.contains("fn args(&mut self, args: Vec < String >) -> &mut Self"));
    assert!(text.contains("fn arg(&mut self, param: String) -> &mut Self { if let Some(temp_v) = &mut self.args"));
    assert!(syn::parse_file(&text).is_ok());
}

#[test]
fn each_attribute_with_the_field_name_replaces_the_whole_setter() {
    let text = generated(
        "struct C { #[builder(each = \"env\")] env: Vec<String> }",
    )
    .unwrap();
    assert!(!text.contains("fn env(&mut self, env:"));
    assert!(text.contains("fn env(&mut self, param: String)"));
}

#[test]
fn optional_field_setter_takes_the_inner_type() {
    let text = generated("struct C { dir: Option<std::path::PathBuf> }").unwrap();
    assert!(text.contains("fn dir(&mut self, dir: std) -> &mut Self"));
    assert!(text.contains("let dir = self.dir.take(); "));
}

#[test]
fn struct_without_fields() {
    let text = generated("struct E {}").unwrap();
    assert_eq!(
        text,
        "#[derive(Debug)] #[allow(unused)] pub struct EBuilder { } impl E { pub fn builder() -> EBuilder { EBuilder { } } } impl EBuilder { fn build(&mut self) -> std::result::Result<E, std::boxed::Box<dyn std::error::Error>> { Ok(E {  }) } }"
    );
}

#[test]
fn error_wrong_attribute_identifier() {
    let e = generated("struct C { #[builder(eac = \"arg\")] args: Vec<String> }").unwrap_err();
    assert!(matches!(e, GenerateError::ExpectedEach));
    assert_eq!(e.message(), "expected `builder(each = \"...\")`");
}

#[test]
fn error_wrong_punctuation() {
    let e = generated("struct C { #[builder(each : \"arg\")] args: Vec<String> }").unwrap_err();
    assert!(matches!(e, GenerateError::ExpectedEquals { ref ident, punct: ':' } if ident == "each"));
    assert_eq!(e.message(), "Expecting '=' after each = found ':' ");
}

#[test]
fn error_nested_group() {
    let e = generated("struct C { #[builder(each = (x))] args: Vec<String> }").unwrap_err();
    assert!(matches!(e, GenerateError::UnexpectedGroup { ref group } if group == "(x)"));
    assert_eq!(e.message(), "Not expecting group `(x)` in attribute(builder, each = \"xxx\")");
}

#[test]
fn error_missing_literal() {
    let e = generated("struct C { #[builder(each =)] args: Vec<String> }").unwrap_err();
    assert!(matches!(e, GenerateError::MissingLiteral));
}

#[test]
fn error_attribute_not_a_group() {
    let e = generated("struct C { #[doc = \"text\"] args: Vec<String> }").unwrap_err();
    match &e {
        GenerateError::GroupParse { message } => assert!(!message.is_empty()),
        other => panic!("unexpected {:?}", other),
    }
    assert!(e.message().starts_with("Group Err: "));
}

#[test]
fn error_two_attributes() {
    let e = generated(
        "struct C { #[builder(each = \"a\")] #[builder(each = \"b\")] args: Vec<String> }",
    )
    .unwrap_err();
    assert!(matches!(e, GenerateError::AttributeCount { count: 2 }));
    assert_eq!(e.message(), "Only one attribute(builder, each = \"xxx\") there are 2");
}

#[test]
fn error_long_attribute_path() {
    let e = generated("struct C { #[a::builder(each = \"a\")] args: Vec<String> }").unwrap_err();
    assert!(matches!(e, GenerateError::PathSegmentCount { count: 2 }));
    assert_eq!(
        e.message(),
        "Expecting one attribute(builder, each = \"xxx\"), there are 2 `builder` attributes"
    );
}

#[test]
fn error_option_without_arguments() {
    let e = generated("struct C { o: Option }").unwrap_err();
    assert!(matches!(e, GenerateError::NoSegmentArguments));
    assert_eq!(e.message(), "No segment arguments");
}

#[test]
fn error_option_of_a_tuple() {
    let e = generated("struct C { o: Option<(u8, u8)> }").unwrap_err();
    match &e {
        GenerateError::UnexpectedArgument { argument } => assert!(argument.starts_with("Type(Tuple")),
        other => panic!("unexpected {:?}", other),
    }
    assert!(e.message().starts_with("Expecting GenericArgument found Type(Tuple"));
}

#[test]
fn error_option_of_a_lifetime() {
    let e = generated("struct C<'a> { o: Option<'a> }").unwrap_err();
    assert!(matches!(e, GenerateError::UnexpectedArgument { .. }));
}

#[test]
fn first_failing_field_gives_the_error() {
    let e = generated("struct C { o: Option, #[builder(eac = \"x\")] v: Vec<u8> }").unwrap_err();
    assert!(matches!(e, GenerateError::NoSegmentArguments));
}

#[test]
fn attribute_on_a_plain_field_is_ignored() {
    let text = generated("struct C { #[builder(each = \"x\")] n: u8 }").unwrap();
    assert!(text.contains("fn n(&mut self, n: u8) -> &mut Self { self.n = Some(n); self } "));
}

#[test]
fn punctuation_before_identifier_panics() {
    let model = model_of("struct C { #[builder(, each = \"x\")] v: Vec<u8> }");
    assert!(generate_panics(&model));
}

#[test]
fn unnamed_required_field_panics() {
    let field = FieldDef {
        ident: None,
        ty: FieldType { tokens: "u8".to_string(), path: None, location: Location::CallSite },
        attrs: Vec::new(),
    };
    let model = analyze(Ast { ident: "S".to_string(), fields: Fields::Named(vec![field]) });
    assert!(generate_panics(&model));
}

#[test]
fn field_kinds() {
    let model = model_of(COMMAND);
    let f = &model.named_fields;
    assert!(!is_optional_field(&f[0]) && !is_repeated_field(&f[0]));
    assert!(is_repeated_field(&f[1]) && !is_optional_field(&f[1]));
    assert!(is_optional_field(&f[3]));
    assert_eq!(extract_inner_type_of_field(&f[3]).unwrap(), "String");
    match extract_inner_type_of_field(&f[0]) {
        Err(d) => {
            assert!(matches!(d.error, GenerateError::NoSegmentArguments));
            assert_eq!(d.location, Location::Segment(0, 0));
        }
        Ok(t) => panic!("unexpected {}", t),
    }
}

#[test]
fn literal_of_the_each_attribute() {
    let field = FieldDef {
        ident: Some("v".to_string()),
        ty: FieldType { tokens: "Vec < u8 >".to_string(), path: None, location: Location::CallSite },
        attrs: vec![Attr {
            path: vec!["builder".to_string()],
            group: Ok(vec![
                Token { kind: TokenKind::Ident("each".to_string()), location: Location::CallSite },
                Token { kind: TokenKind::Punct('='), location: Location::CallSite },
                Token { kind: TokenKind::Literal("\"x\"".to_string()), location: Location::CallSite },
                Token { kind: TokenKind::Literal("\"y\"".to_string()), location: Location::CallSite },
            ]),
            location: Location::CallSite,
        }],
    };
    match literal_from_builder_each_attribute(&field) {
        Outcome::Done(Some(l)) => assert_eq!(l, "\"y\""),
        _ => panic!("a literal expected"),
    }
}

#[test]
fn text_helpers() {
    assert_eq!(remove_quotes("\"a\"b\""), "ab");
    assert!(str_eq("each", "each"));
    assert!(!str_eq("each", "eac"));
    let mut s = String::from("n=");
    append_decimal(&mut s, 1203);
    assert_eq!(s, "n=1203");
    let mut z = String::new();
    append_decimal(&mut z, 0);
    assert_eq!(z, "0");
}

fn field_with_type(ty: FieldType) -> FieldDef {
    FieldDef { ident: Some("o".to_string()), ty, attrs: Vec::new() }
}

#[test]
fn inner_type_errors() {
    let not_path = field_with_type(FieldType {
        tokens: "(u8 , u8)".to_string(),
        path: None,
        location: Location::FieldType(4),
    });
    let d = extract_inner_type_of_field(&not_path).unwrap_err();
    assert!(matches!(d.error, GenerateError::NoType));
    assert_eq!(d.location, Location::FieldType(4));
    assert_eq!(d.error.message(), "No type");

    let no_segments = field_with_type(FieldType {
        tokens: String::new(),
        path: Some(Vec::new()),
        location: Location::FieldType(0),
    });
    let d = extract_inner_type_of_field(&no_segments).unwrap_err();
    assert!(matches!(d.error, GenerateError::NoSegments));
    assert_eq!(d.location, Location::CallSite);
    assert_eq!(d.error.message(), "No segments");

    let segment = |args: Vec<TypeArg>| Segment {
        ident: "Option".to_string(),
        tokens: "Option < >".to_string(),
        arguments: PathArguments::AngleBracketed(args),
        location: Location::Segment(0, 0),
    };
    let empty = field_with_type(FieldType {
        tokens: "Option < >".to_string(),
        path: Some(vec![segment(Vec::new())]),
        location: Location::FieldType(0),
    });
    let d = extract_inner_type_of_field(&empty).unwrap_err();
    assert!(matches!(d.error, GenerateError::NoGenericArgument));
    assert_eq!(d.location, Location::CallSite);
    assert_eq!(d.error.message(), "No GenericArgument, found []");

    let pathless = field_with_type(FieldType {
        tokens: "Option < T >".to_string(),
        path: Some(vec![segment(vec![TypeArg::Type {
            tokens: "T".to_string(),
            debug: "Type(T)".to_string(),
            path: Some(Vec::new()),
            location: Location::Argument(0, 0, 0),
        }])]),
        location: Location::FieldType(0),
    });
    let d = extract_inner_type_of_field(&pathless).unwrap_err();
    assert!(matches!(d.error, GenerateError::NoPathSegmentsOnArgument { ref argument } if argument == "Type(T)"));
    assert_eq!(d.error.message(), "No path sgements on argument: Type(T)");

    let other = field_with_type(FieldType {
        tokens: "Option < 'a >".to_string(),
        path: Some(vec![segment(vec![TypeArg::Other {
            tokens: "'a".to_string(),
            debug: "Lifetime('a)".to_string(),
            location: Location::Argument(0, 0, 0),
        }])]),
        location: Location::FieldType(0),
    });
    let d = extract_inner_type_of_field(&other).unwrap_err();
    assert_eq!(d.location, Location::Argument(0, 0, 0));
    assert_eq!(d.error.message(), "Expecting GenericArgument found Lifetime('a)");
}

#[test]
fn errors_are_located_at_the_offending_part() {
    let at = |text: &str| generated_at(text).unwrap_err().location;
    assert_eq!(at("struct C { a: u8, #[builder(eac = \"x\")] v: Vec<u8> }"), Location::AttrToken(1, 0, 0));
    assert_eq!(at("struct C { #[builder(each : \"x\")] v: Vec<u8> }"), Location::AttrToken(0, 0, 1));
    assert_eq!(at("struct C { #[builder(each = (x))] v: Vec<u8> }"), Location::AttrToken(0, 0, 2));
    assert_eq!(at("struct C { #[builder(each =)] v: Vec<u8> }"), Location::AttrGroup(0, 0));
    assert_eq!(at("struct C { x: u8, o: Option }"), Location::Segment(1, 0));
    assert_eq!(at("struct C { o: Option<'a> }"), Location::Argument(0, 0, 0));
    assert_eq!(at("struct C { o: Option<&'a str> }"), Location::Argument(0, 0, 0));
    assert_eq!(at("struct C { #[builder(each = \"a\")] #[x] v: Vec<u8> }"), Location::CallSite);
}

#[test]
fn missing_literal_message() {
    let e = generated("struct C { #[builder(each =)] args: Vec<String> }").unwrap_err();
    assert_eq!(
        e.message(),
        "Expecting a literal, such as `xxx` in attribute(builder, each = \"xxx\""
    );
}

#[test]
fn repeated_field_with_each_needs_an_inner_type() {
    let e = generated("struct C { #[builder(each = \"x\")] v: Vec }").unwrap_err();
    assert!(matches!(e, GenerateError::NoSegmentArguments));
}

#[test]
fn each_setter_starts_a_vector_of_the_item_type() {
    let text = generated("struct C { #[builder(each = \"byte\")] bytes: Vec<u8> }").unwrap();
    assert!(text.contains("fn byte(&mut self, param: u8) -> &mut Self"));
    assert!(text.contains("let mut new_v = std::vec::Vec::new(); new_v.push(param);"));
    assert!(!text.contains("Vec::<String>"));
    assert!(syn::parse_file(&text).is_ok());
}

#[test]
fn each_name_that_is_not_an_identifier_panics() {
    let model = model_of("struct C { #[builder(each = \"a b\")] v: Vec<u8> }");
    assert!(generate_panics(&model));
    let model = model_of("struct C { #[builder(each = \"3\")] v: Vec<u8> }");
    assert!(generate_panics(&model));
    let model = model_of("struct C { #[builder(each = \"_x\")] v: Vec<u8> }");
    assert!(!generate_panics(&model));
}

#[test]
fn identifier_check() {
    assert!(is_valid_ident("arg"));
    assert!(is_valid_ident("_"));
    assert!(is_valid_ident("\u{e9}t\u{e9}"));
    assert!(!is_valid_ident(""));
    assert!(!is_valid_ident("1a"));
    assert!(!is_valid_ident("r#x"));
}
