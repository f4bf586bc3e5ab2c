//! Reading the derive's input: a struct definition with named fields.
use vstd::prelude::*;
use crate::bridge::{
    argument_debug, argument_kind, derive_ident, derive_input_ident, syn_derive_ident, argument_segment_tokens, argument_tokens, attr_count,
    attr_group, attr_path_ident, attr_path_len, attr_token, field_count, field_ident, fields_kind,
    has_argument, has_attr, has_field, has_segment, parses, segment_arguments, segment_ident,
    segment_tokens, struct_ident, struct_parse_error, syn_argument_debug, syn_argument_kind,
    syn_argument_segment_tokens, syn_argument_tokens, syn_attr_count, syn_attr_group,
    syn_attr_path_ident, syn_attr_path_len, syn_attr_token, syn_field_count, syn_field_ident,
    syn_fields_kind, syn_parse_error, syn_segment_arguments, syn_segment_ident,
    syn_segment_tokens, syn_struct_ident, syn_type_segment_count, syn_type_tokens,
    type_segment_count, type_tokens, ArgumentKind, ArgumentsKind, FieldsKind,
};
use crate::syntax::{
    fields_view, strings_view, trees_view, args_view, attrs_view, segments_view, Ast, Attr,
    FieldDef, FieldType, Fields, Location, PathArguments, Segment, SpecAst, SpecAttr, SpecFieldDef,
    SpecFieldType, SpecFields, SpecPathArguments, SpecSegment, SpecToken, SpecTypeArg, Token,
    TypeArg,
};

verus! {

/// The message of the error for a struct without named fields.
pub open spec fn not_named_message() -> Seq<char> {
    "this derive macro only works on `struct`s with named fields"@
}

/// Why the input could not be read.
#[derive(Debug)]
pub enum ParseError {
    /// The tokens are not a struct, an enum or a union; `message` is
    /// syn's.
    Syntax { message: String },
    /// The struct named `ident` is a tuple struct or a unit struct.
    NotNamedFields { ident: String },
    /// The item named `ident` is an enum or a union.
    NotAStruct { ident: String },
}

/// The view of a [`ParseError`].
pub enum SpecParseError {
    Syntax(Seq<char>),
    NotNamedFields(Seq<char>),
    NotAStruct(Seq<char>),
}

impl View for ParseError {
    type V = SpecParseError;

    open spec fn view(&self) -> SpecParseError {
        match self {
            ParseError::Syntax { message } => SpecParseError::Syntax(message@),
            ParseError::NotNamedFields { ident } => SpecParseError::NotNamedFields(ident@),
            ParseError::NotAStruct { ident } => SpecParseError::NotAStruct(ident@),
        }
    }
}

impl ParseError {
    /// The error's message: syn's for a syntax error, and for a struct
    /// without named fields the sentence [`not_named_message`].
    pub fn to_string(&self) -> (res: String)
        ensures
            res@ == match self {
                ParseError::Syntax { message } => message@,
                _ => not_named_message(),
            },
    {
        match self {
            ParseError::Syntax { message } => message.clone(),
            _ => {
                String::from_str("this derive macro only works on `struct`s with named fields")
            },
        }
    }
}

impl ParseError {
    /// Where the derive reports the error: at the name of the struct, enum
    /// or union that it refuses; a syntax error, on which the derive
    /// panics, has no place in the input.
    pub fn location(&self) -> (res: Location)
        ensures
            res == match self {
                ParseError::Syntax { .. } => Location::CallSite,
                _ => Location::StructIdent,
            },
    {
        match self {
            ParseError::Syntax { .. } => Location::CallSite,
            _ => Location::StructIdent,
        }
    }
}

/// Accepts a struct definition with named fields and refuses the others.
///
/// Returns the definition unchanged where its fields are named, and
/// otherwise the error that names the struct.
pub fn check_named(ast: Ast) -> (res: Result<Ast, ParseError>)
    ensures
        ast@.fields is Named ==> (res matches Ok(a) && a@ == ast@),
        !(ast@.fields is Named) ==> (res matches Err(ParseError::NotNamedFields { ident })
            && ident@ == ast@.ident),
{
    match ast.fields {
        Fields::Named(_) => Ok(ast),
        _ => Err(ParseError::NotNamedFields { ident: ast.ident }),
    }
}

// ----------------------------------------------------------------------
// The struct that syn reads, as a model

/// Generic argument `k` of segment `j` of the type of field `i`.
pub open spec fn read_argument(input: proc_macro2::TokenStream, i: usize, j: usize, k: usize) -> SpecTypeArg {
    let tokens = syn_argument_tokens(input, i, j, k);
    let debug = syn_argument_debug(input, i, j, k);
    match syn_argument_kind(input, i, j, k) {
        ArgumentKind::PathType(n) => SpecTypeArg::Type {
            tokens,
            debug,
            path: Some(Seq::new(n as nat, |l: int| syn_argument_segment_tokens(input, i, j, k, l as usize))),
            location: Location::Argument(i, j, k),
        },
        ArgumentKind::OtherType => SpecTypeArg::Type {
            tokens,
            debug,
            path: None,
            location: Location::Argument(i, j, k),
        },
        ArgumentKind::NotType => SpecTypeArg::Other { tokens, debug, location: Location::Argument(i, j, k) },
    }
}

/// Segment `j` of the type of field `i`.
pub open spec fn read_segment(input: proc_macro2::TokenStream, i: usize, j: usize) -> SpecSegment {
    SpecSegment {
        ident: syn_segment_ident(input, i, j),
        tokens: syn_segment_tokens(input, i, j),
        arguments: match syn_segment_arguments(input, i, j) {
            ArgumentsKind::Bare => SpecPathArguments::Bare,
            ArgumentsKind::AngleBracketed(n) => SpecPathArguments::AngleBracketed(
                Seq::new(n as nat, |k: int| read_argument(input, i, j, k as usize)),
            ),
            ArgumentsKind::Parenthesized => SpecPathArguments::Parenthesized,
        },
        location: Location::Segment(i, j),
    }
}

/// The type of field `i`.
pub open spec fn read_type(input: proc_macro2::TokenStream, i: usize) -> SpecFieldType {
    SpecFieldType {
        tokens: syn_type_tokens(input, i),
        path: match syn_type_segment_count(input, i) {
            Some(n) => Some(Seq::new(n as nat, |j: int| read_segment(input, i, j as usize))),
            None => None,
        },
        location: Location::FieldType(i),
    }
}

/// Token tree `t` in the group of attribute `a` of field `i`.
pub open spec fn read_token(input: proc_macro2::TokenStream, i: usize, a: usize, t: usize) -> SpecToken {
    SpecToken { kind: syn_attr_token(input, i, a, t), location: Location::AttrToken(i, a, t) }
}

/// Attribute `a` of field `i`.
pub open spec fn read_attr(input: proc_macro2::TokenStream, i: usize, a: usize) -> SpecAttr {
    SpecAttr {
        path: Seq::new(
            syn_attr_path_len(input, i, a) as nat,
            |s: int| syn_attr_path_ident(input, i, a, s as usize),
        ),
        group: match syn_attr_group(input, i, a) {
            Ok(n) => Ok(Seq::new(n as nat, |t: int| read_token(input, i, a, t as usize))),
            Err(m) => Err(m),
        },
        location: Location::AttrGroup(i, a),
    }
}

/// Field `i`.
pub open spec fn read_field(input: proc_macro2::TokenStream, i: usize) -> SpecFieldDef {
    SpecFieldDef {
        ident: syn_field_ident(input, i),
        ty: read_type(input, i),
        attrs: Seq::new(syn_attr_count(input, i) as nat, |a: int| read_attr(input, i, a as usize)),
    }
}

/// The struct's fields, in order.
pub open spec fn read_fields(input: proc_macro2::TokenStream) -> Seq<SpecFieldDef> {
    Seq::new(syn_field_count(input) as nat, |i: int| read_field(input, i as usize))
}

/// The struct that syn reads from the input, as a model.
pub open spec fn read_struct(input: proc_macro2::TokenStream) -> SpecAst {
    SpecAst {
        ident: syn_struct_ident(input),
        fields: match syn_fields_kind(input) {
            FieldsKind::Named => SpecFields::Named(read_fields(input)),
            FieldsKind::Unnamed => SpecFields::Unnamed(read_fields(input)),
            FieldsKind::Unit => SpecFields::Unit,
        },
    }
}

/// What reading the input comes to: where syn reads no struct, the error
/// that names the enum or union it reads, or syn's error where it reads
/// none; otherwise the struct, where its fields are named, or the error
/// that names it.
pub open spec fn spec_parse(input: proc_macro2::TokenStream) -> Result<SpecAst, SpecParseError> {
    match syn_parse_error(input) {
        Some(m) => match syn_derive_ident(input) {
            Some(ident) => Err(SpecParseError::NotAStruct(ident)),
            None => Err(SpecParseError::Syntax(m)),
        },
        None => {
            let s = read_struct(input);
            if s.fields is Named {
                Ok(s)
            } else {
                Err(SpecParseError::NotNamedFields(s.ident))
            }
        },
    }
}

/// A result of reading matches its model.
pub open spec fn parse_result_matches(
    res: Result<Ast, ParseError>,
    s: Result<SpecAst, SpecParseError>,
) -> bool {
    match (res, s) {
        (Ok(a), Ok(b)) => a@ == b,
        (Err(e), Err(f)) => e@ == f,
        _ => false,
    }
}

// ----------------------------------------------------------------------
// Reading

/// Reads a token stream as a struct definition with named fields, the input
/// of the builder derive.
///
/// syn must read the tokens as a struct, an enum or a union, as the input
/// of a derive always is: on other tokens the derive panics
/// ([`try_parse`] reports syn's message instead). A struct is returned
/// unchanged where its fields are named; otherwise, and for an enum or a
/// union, the result is the error that names it.
pub fn parse(input: proc_macro2::TokenStream) -> (res: Result<Ast, ParseError>)
    requires
        parses(input) || syn_derive_ident(input) is Some,
    ensures
        parse_result_matches(res, spec_parse(input)),
{
    match struct_parse_error(&input) {
        None => check_named(convert_item_struct(&input)),
        Some(_) => Err(ParseError::NotAStruct { ident: derive_ident(&input) }),
    }
}

/// Reads a token stream as [`parse`] does, and where syn reads no struct,
/// enum or union, returns syn's message as [`ParseError::Syntax`].
pub fn try_parse(input: proc_macro2::TokenStream) -> (res: Result<Ast, ParseError>)
    ensures
        parse_result_matches(res, spec_parse(input)),
{
    match struct_parse_error(&input) {
        None => parse(input),
        Some(message) => match derive_input_ident(&input) {
            Some(ident) => Err(ParseError::NotAStruct { ident }),
            None => Err(ParseError::Syntax { message }),
        },
    }
}

/// The struct that syn reads, as [`read_struct`] states it.
fn convert_item_struct(input: &proc_macro2::TokenStream) -> (res: Ast)
    requires
        parses(*input),
    ensures
        res@ == read_struct(*input),
{
    let ident = struct_ident(input);
    let fields = match fields_kind(input) {
        FieldsKind::Named => Fields::Named(convert_fields(input)),
        FieldsKind::Unnamed => Fields::Unnamed(convert_fields(input)),
        FieldsKind::Unit => Fields::Unit,
    };
    Ast { ident, fields }
}

/// The struct's fields, as [`read_fields`] states them.
fn convert_fields(input: &proc_macro2::TokenStream) -> (res: Vec<FieldDef>)
    requires
        parses(*input),
    ensures
        fields_view(res@) == read_fields(*input),
{
    let n = field_count(input);
    let mut res: Vec<FieldDef> = Vec::new();
    for i in 0..n
        invariant
            parses(*input),
            n == syn_field_count(*input),
            res.len() == i,
            forall|x: int| 0 <= x < i ==> #[trigger] res@[x]@ == read_field(*input, x as usize),
    {
        res.push(convert_field(input, i));
    }
    assert(fields_view(res@) =~= read_fields(*input));
    res
}

/// Field `i`, as [`read_field`] states it.
fn convert_field(input: &proc_macro2::TokenStream, i: usize) -> (res: FieldDef)
    requires
        has_field(*input, i),
    ensures
        res@ == read_field(*input, i),
{
    let ident = field_ident(input, i);
    let ty = convert_type(input, i);
    let n = attr_count(input, i);
    let mut attrs: Vec<Attr> = Vec::new();
    for a in 0..n
        invariant
            has_field(*input, i),
            n == syn_attr_count(*input, i),
            attrs.len() == a,
            forall|x: int| 0 <= x < a ==> #[trigger] attrs@[x]@ == read_attr(*input, i, x as usize),
    {
        attrs.push(convert_attribute(input, i, a));
    }
    assert(attrs_view(attrs@) =~= read_field(*input, i).attrs);
    FieldDef { ident, ty, attrs }
}

/// Attribute `a` of field `i`, as [`read_attr`] states it.
fn convert_attribute(input: &proc_macro2::TokenStream, i: usize, a: usize) -> (res: Attr)
    requires
        has_attr(*input, i, a),
    ensures
        res@ == read_attr(*input, i, a),
{
    let n = attr_path_len(input, i, a);
    let mut path: Vec<String> = Vec::new();
    for s in 0..n
        invariant
            has_attr(*input, i, a),
            n == syn_attr_path_len(*input, i, a),
            path.len() == s,
            forall|x: int| 0 <= x < s ==> #[trigger] path@[x]@ == syn_attr_path_ident(*input, i, a, x as usize),
    {
        path.push(attr_path_ident(input, i, a, s));
    }
    assert(strings_view(path@) =~= read_attr(*input, i, a).path);
    let group = match attr_group(input, i, a) {
        Ok(m) => {
            let mut out: Vec<Token> = Vec::new();
            for t in 0..m
                invariant
                    has_attr(*input, i, a),
                    syn_attr_group(*input, i, a) == Ok::<usize, Seq<char>>(m),
                    out.len() == t,
                    forall|x: int| 0 <= x < t ==> #[trigger] out@[x]@ == read_token(*input, i, a, x as usize),
            {
                out.push(Token { kind: attr_token(input, i, a, t), location: Location::AttrToken(i, a, t) });
            }
            assert(trees_view(out@) =~= Seq::new(m as nat, |t: int| read_token(*input, i, a, t as usize)));
            Ok(out)
        },
        Err(e) => Err(e),
    };
    Attr { path, group, location: Location::AttrGroup(i, a) }
}

/// The type of field `i`, as [`read_type`] states it.
fn convert_type(input: &proc_macro2::TokenStream, i: usize) -> (res: FieldType)
    requires
        has_field(*input, i),
    ensures
        res@ == read_type(*input, i),
{
    let tokens = type_tokens(input, i);
    let path = match type_segment_count(input, i) {
        Some(n) => {
            let mut out: Vec<Segment> = Vec::new();
            for j in 0..n
                invariant
                    has_field(*input, i),
                    syn_type_segment_count(*input, i) == Some(n),
                    out.len() == j,
                    forall|x: int| 0 <= x < j ==> #[trigger] out@[x]@ == read_segment(*input, i, x as usize),
            {
                out.push(convert_segment(input, i, j));
            }
            assert(segments_view(out@) =~= Seq::new(n as nat, |j: int| read_segment(*input, i, j as usize)));
            Some(out)
        },
        None => None,
    };
    FieldType { tokens, path, location: Location::FieldType(i) }
}

/// Segment `j` of the type of field `i`, as [`read_segment`] states it.
fn convert_segment(input: &proc_macro2::TokenStream, i: usize, j: usize) -> (res: Segment)
    requires
        has_segment(*input, i, j),
    ensures
        res@ == read_segment(*input, i, j),
{
    let arguments = match segment_arguments(input, i, j) {
        ArgumentsKind::Bare => PathArguments::Bare,
        ArgumentsKind::AngleBracketed(n) => {
            let mut out: Vec<TypeArg> = Vec::new();
            for k in 0..n
                invariant
                    has_segment(*input, i, j),
                    syn_segment_arguments(*input, i, j) == ArgumentsKind::AngleBracketed(n),
                    out.len() == k,
                    forall|x: int| 0 <= x < k ==> #[trigger] out@[x]@ == read_argument(*input, i, j, x as usize),
            {
                out.push(convert_argument(input, i, j, k));
            }
            assert(args_view(out@) =~= Seq::new(n as nat, |k: int| read_argument(*input, i, j, k as usize)));
            PathArguments::AngleBracketed(out)
        },
        ArgumentsKind::Parenthesized => PathArguments::Parenthesized,
    };
    Segment {
        ident: segment_ident(input, i, j),
        tokens: segment_tokens(input, i, j),
        arguments,
        location: Location::Segment(i, j),
    }
}

/// Generic argument `k` of segment `j` of the type of field `i`, as
/// [`read_argument`] states it.
fn convert_argument(input: &proc_macro2::TokenStream, i: usize, j: usize, k: usize) -> (res: TypeArg)
    requires
        has_argument(*input, i, j, k),
    ensures
        res@ == read_argument(*input, i, j, k),
{
    let tokens = argument_tokens(input, i, j, k);
    let debug = argument_debug(input, i, j, k);
    match argument_kind(input, i, j, k) {
        ArgumentKind::PathType(n) => {
            let mut out: Vec<String> = Vec::new();
            for l in 0..n
                invariant
                    has_argument(*input, i, j, k),
                    syn_argument_kind(*input, i, j, k) == ArgumentKind::PathType(n),
                    out.len() == l,
                    forall|x: int| 0 <= x < l ==> #[trigger] out@[x]@
                        == syn_argument_segment_tokens(*input, i, j, k, x as usize),
            {
                out.push(argument_segment_tokens(input, i, j, k, l));
            }
            assert(strings_view(out@) =~= Seq::new(
                n as nat,
                |l: int| syn_argument_segment_tokens(*input, i, j, k, l as usize),
            ));
            TypeArg::Type { tokens, debug, path: Some(out), location: Location::Argument(i, j, k) }
        },
        ArgumentKind::OtherType => TypeArg::Type {
            tokens,
            debug,
            path: None,
            location: Location::Argument(i, j, k),
        },
        ArgumentKind::NotType => TypeArg::Other { tokens, debug, location: Location::Argument(i, j, k) },
    }
}

} // verus!
