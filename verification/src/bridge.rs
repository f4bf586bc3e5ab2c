//! Trusted access to the struct definition that `syn` reads from the derive's
//! input tokens.
//!
//! The input is a `proc_macro2::TokenStream`, opaque here. Each function
//! below calls `syn::parse2::<syn::ItemStruct>` on the input and reads one
//! part of the struct that syn returns, addressed by position: field `i`,
//! segment `j` of its type's path, generic argument `k` of that segment,
//! attribute `a` of the field, and so on. Each part comes back as a plain
//! value, and each function's result is named by a spec function of the
//! input and the positions: syn's reading depends on the tokens alone.
//! The spec functions say nothing more of these names; `parse` assembles
//! them into the model and is verified against them.
use vstd::prelude::*;
use quote::ToTokens;
use crate::syntax::{SpecTokenKind, TokenKind};

verus! {

#[verifier::external_type_specification]
#[verifier::external_body]
pub struct ExTokenStream(proc_macro2::TokenStream);

/// The kind of a struct's fields.
#[derive(Debug, Clone, Copy, PartialEq, Eq, Structural)]
pub enum FieldsKind {
    Named,
    Unnamed,
    Unit,
}

/// The kind of a path segment's arguments; for angle brackets, their number.
#[derive(Debug, Clone, Copy, PartialEq, Eq, Structural)]
pub enum ArgumentsKind {
    Bare,
    AngleBracketed(usize),
    Parenthesized,
}

/// The kind of a generic argument; for a path type, the number of its path
/// segments.
#[derive(Debug, Clone, Copy, PartialEq, Eq, Structural)]
pub enum ArgumentKind {
    PathType(usize),
    OtherType,
    NotType,
}

/// syn's error message where it cannot read the input as a struct.
pub uninterp spec fn syn_parse_error(input: proc_macro2::TokenStream) -> Option<Seq<char>>;

/// Where syn reads the input as a derive input (a struct, an enum or a
/// union), its name.
pub uninterp spec fn syn_derive_ident(input: proc_macro2::TokenStream) -> Option<Seq<char>>;

/// The struct's name.
pub uninterp spec fn syn_struct_ident(input: proc_macro2::TokenStream) -> Seq<char>;

/// The kind of the struct's fields.
pub uninterp spec fn syn_fields_kind(input: proc_macro2::TokenStream) -> FieldsKind;

/// The number of the struct's fields.
pub uninterp spec fn syn_field_count(input: proc_macro2::TokenStream) -> usize;

/// The name of field `i`.
pub uninterp spec fn syn_field_ident(input: proc_macro2::TokenStream, i: usize) -> Option<Seq<char>>;

/// The type of field `i` as text.
pub uninterp spec fn syn_type_tokens(input: proc_macro2::TokenStream, i: usize) -> Seq<char>;

/// Where the type of field `i` is a path type, the number of its segments.
pub uninterp spec fn syn_type_segment_count(input: proc_macro2::TokenStream, i: usize) -> Option<usize>;

/// The identifier of segment `j` of the type of field `i`.
pub uninterp spec fn syn_segment_ident(input: proc_macro2::TokenStream, i: usize, j: usize) -> Seq<char>;

/// Segment `j` of the type of field `i` as text.
pub uninterp spec fn syn_segment_tokens(input: proc_macro2::TokenStream, i: usize, j: usize) -> Seq<char>;

/// The kind of the arguments of segment `j` of the type of field `i`.
pub uninterp spec fn syn_segment_arguments(
    input: proc_macro2::TokenStream,
    i: usize,
    j: usize,
) -> ArgumentsKind;

/// Generic argument `k` of that segment as text.
pub uninterp spec fn syn_argument_tokens(
    input: proc_macro2::TokenStream,
    i: usize,
    j: usize,
    k: usize,
) -> Seq<char>;

/// Generic argument `k` of that segment as its `Debug` prints it.
pub uninterp spec fn syn_argument_debug(
    input: proc_macro2::TokenStream,
    i: usize,
    j: usize,
    k: usize,
) -> Seq<char>;

/// The kind of generic argument `k` of that segment.
pub uninterp spec fn syn_argument_kind(
    input: proc_macro2::TokenStream,
    i: usize,
    j: usize,
    k: usize,
) -> ArgumentKind;

/// Segment `l` of the path type that is generic argument `k`, as text.
pub uninterp spec fn syn_argument_segment_tokens(
    input: proc_macro2::TokenStream,
    i: usize,
    j: usize,
    k: usize,
    l: usize,
) -> Seq<char>;

/// The number of attributes of field `i`.
pub uninterp spec fn syn_attr_count(input: proc_macro2::TokenStream, i: usize) -> usize;

/// The number of segments of the path of attribute `a` of field `i`.
pub uninterp spec fn syn_attr_path_len(input: proc_macro2::TokenStream, i: usize, a: usize) -> usize;

/// The identifier of segment `s` of that path.
pub uninterp spec fn syn_attr_path_ident(
    input: proc_macro2::TokenStream,
    i: usize,
    a: usize,
    s: usize,
) -> Seq<char>;

/// The tokens of attribute `a` of field `i` read as one delimited group:
/// the number of token trees inside it, or syn's error message.
pub uninterp spec fn syn_attr_group(
    input: proc_macro2::TokenStream,
    i: usize,
    a: usize,
) -> Result<usize, Seq<char>>;

/// Token tree `t` inside that group.
pub uninterp spec fn syn_attr_token(
    input: proc_macro2::TokenStream,
    i: usize,
    a: usize,
    t: usize,
) -> SpecTokenKind;

/// syn reads the input as a struct.
pub open spec fn parses(input: proc_macro2::TokenStream) -> bool {
    syn_parse_error(input) is None
}

/// Field `i` exists.
pub open spec fn has_field(input: proc_macro2::TokenStream, i: usize) -> bool {
    parses(input) && i < syn_field_count(input)
}

/// Segment `j` of the path type of field `i` exists.
pub open spec fn has_segment(input: proc_macro2::TokenStream, i: usize, j: usize) -> bool {
    &&& has_field(input, i)
    &&& syn_type_segment_count(input, i) matches Some(n) && j < n
}

/// Generic argument `k` of that segment exists.
pub open spec fn has_argument(input: proc_macro2::TokenStream, i: usize, j: usize, k: usize) -> bool {
    &&& has_segment(input, i, j)
    &&& syn_segment_arguments(input, i, j) matches ArgumentsKind::AngleBracketed(n) && k < n
}

/// Attribute `a` of field `i` exists.
pub open spec fn has_attr(input: proc_macro2::TokenStream, i: usize, a: usize) -> bool {
    has_field(input, i) && a < syn_attr_count(input, i)
}

/// Calls `syn::parse2::<syn::ItemStruct>` on the input: its error message,
/// or none where syn reads a struct.
#[verifier::external_body]
pub(crate) fn struct_parse_error(input: &proc_macro2::TokenStream) -> (res: Option<String>)
    ensures
        match res {
            Some(m) => syn_parse_error(*input) == Some(m@),
            None => syn_parse_error(*input) is None,
        },
{
    match syn::parse2::<syn::ItemStruct>(input.clone()) {
        Ok(_) => None,
        Err(e) => Some(e.to_string()),
    }
}

/// Calls `syn::parse2::<syn::DeriveInput>` on the input: the name of the
/// struct, enum or union that syn reads (`DeriveInput::ident`, printed), or
/// none where syn reads none.
#[verifier::external_body]
pub(crate) fn derive_input_ident(input: &proc_macro2::TokenStream) -> (res: Option<String>)
    ensures
        match res {
            Some(s) => syn_derive_ident(*input) == Some(s@),
            None => syn_derive_ident(*input) is None,
        },
{
    match syn::parse2::<syn::DeriveInput>(input.clone()) {
        Ok(d) => Some(d.ident.to_string()),
        Err(_) => None,
    }
}

/// Calls `syn::parse2::<syn::DeriveInput>` on an input that syn reads as a
/// derive input: its name (`DeriveInput::ident`, printed).
#[verifier::external_body]
pub(crate) fn derive_ident(input: &proc_macro2::TokenStream) -> (res: String)
    requires
        syn_derive_ident(*input) is Some,
    ensures
        syn_derive_ident(*input) == Some(res@),
{
    syn::parse2::<syn::DeriveInput>(input.clone()).unwrap().ident.to_string()
}

/// The struct's name (`ItemStruct::ident`, printed).
#[verifier::external_body]
pub(crate) fn struct_ident(input: &proc_macro2::TokenStream) -> (res: String)
    requires
        parses(*input),
    ensures
        res@ == syn_struct_ident(*input),
{
    syn::parse2::<syn::ItemStruct>(input.clone()).unwrap().ident.to_string()
}

/// The kind of the struct's fields (`ItemStruct::fields`).
#[verifier::external_body]
pub(crate) fn fields_kind(input: &proc_macro2::TokenStream) -> (res: FieldsKind)
    requires
        parses(*input),
    ensures
        res == syn_fields_kind(*input),
{
    match syn::parse2::<syn::ItemStruct>(input.clone()).unwrap().fields {
        syn::Fields::Named(_) => FieldsKind::Named,
        syn::Fields::Unnamed(_) => FieldsKind::Unnamed,
        syn::Fields::Unit => FieldsKind::Unit,
    }
}

/// The number of the struct's fields (`Fields::len`).
#[verifier::external_body]
pub(crate) fn field_count(input: &proc_macro2::TokenStream) -> (res: usize)
    requires
        parses(*input),
    ensures
        res == syn_field_count(*input),
{
    syn::parse2::<syn::ItemStruct>(input.clone()).unwrap().fields.len()
}

/// The name of field `i` (`Field::ident`, printed).
#[verifier::external_body]
pub(crate) fn field_ident(input: &proc_macro2::TokenStream, i: usize) -> (res: Option<String>)
    requires
        has_field(*input, i),
    ensures
        match res {
            Some(s) => syn_field_ident(*input, i) == Some(s@),
            None => syn_field_ident(*input, i) is None,
        },
{
    let item = syn::parse2::<syn::ItemStruct>(input.clone()).unwrap();
    match &item.fields.iter().nth(i).unwrap().ident {
        Some(ident) => Some(ident.to_string()),
        None => None,
    }
}

/// The type of field `i` as text (`Field::ty`, `to_token_stream`, printed).
#[verifier::external_body]
pub(crate) fn type_tokens(input: &proc_macro2::TokenStream, i: usize) -> (res: String)
    requires
        has_field(*input, i),
    ensures
        res@ == syn_type_tokens(*input, i),
{
    let item = syn::parse2::<syn::ItemStruct>(input.clone()).unwrap();
    item.fields.iter().nth(i).unwrap().ty.to_token_stream().to_string()
}

/// Where the type of field `i` is a path type (`Type::Path`), the number of
/// its path segments.
#[verifier::external_body]
pub(crate) fn type_segment_count(input: &proc_macro2::TokenStream, i: usize) -> (res: Option<usize>)
    requires
        has_field(*input, i),
    ensures
        res == syn_type_segment_count(*input, i),
{
    let item = syn::parse2::<syn::ItemStruct>(input.clone()).unwrap();
    match &item.fields.iter().nth(i).unwrap().ty {
        syn::Type::Path(p) => Some(p.path.segments.len()),
        _ => None,
    }
}

/// The identifier of segment `j` of the type of field `i`
/// (`PathSegment::ident`, printed).
#[verifier::external_body]
pub(crate) fn segment_ident(input: &proc_macro2::TokenStream, i: usize, j: usize) -> (res: String)
    requires
        has_segment(*input, i, j),
    ensures
        res@ == syn_segment_ident(*input, i, j),
{
    let item = syn::parse2::<syn::ItemStruct>(input.clone()).unwrap();
    match &item.fields.iter().nth(i).unwrap().ty {
        syn::Type::Path(p) => p.path.segments[j].ident.to_string(),
        _ => String::new(),
    }
}

/// Segment `j` of the type of field `i` as text (`to_token_stream`,
/// printed).
#[verifier::external_body]
pub(crate) fn segment_tokens(input: &proc_macro2::TokenStream, i: usize, j: usize) -> (res: String)
    requires
        has_segment(*input, i, j),
    ensures
        res@ == syn_segment_tokens(*input, i, j),
{
    let item = syn::parse2::<syn::ItemStruct>(input.clone()).unwrap();
    match &item.fields.iter().nth(i).unwrap().ty {
        syn::Type::Path(p) => p.path.segments[j].to_token_stream().to_string(),
        _ => String::new(),
    }
}

/// The kind of the arguments of that segment (`PathSegment::arguments`).
#[verifier::external_body]
pub(crate) fn segment_arguments(input: &proc_macro2::TokenStream, i: usize, j: usize) -> (res: ArgumentsKind)
    requires
        has_segment(*input, i, j),
    ensures
        res == syn_segment_arguments(*input, i, j),
{
    let item = syn::parse2::<syn::ItemStruct>(input.clone()).unwrap();
    match &item.fields.iter().nth(i).unwrap().ty {
        syn::Type::Path(p) => match &p.path.segments[j].arguments {
            syn::PathArguments::None => ArgumentsKind::Bare,
            syn::PathArguments::AngleBracketed(a) => ArgumentsKind::AngleBracketed(a.args.len()),
            syn::PathArguments::Parenthesized(_) => ArgumentsKind::Parenthesized,
        },
        _ => ArgumentsKind::Bare,
    }
}

/// Generic argument `k` of that segment as text (`to_token_stream`,
/// printed).
#[verifier::external_body]
pub(crate) fn argument_tokens(input: &proc_macro2::TokenStream, i: usize, j: usize, k: usize) -> (res: String)
    requires
        has_argument(*input, i, j, k),
    ensures
        res@ == syn_argument_tokens(*input, i, j, k),
{
    let item = syn::parse2::<syn::ItemStruct>(input.clone()).unwrap();
    match &item.fields.iter().nth(i).unwrap().ty {
        syn::Type::Path(p) => match &p.path.segments[j].arguments {
            syn::PathArguments::AngleBracketed(a) => a.args[k].to_token_stream().to_string(),
            _ => String::new(),
        },
        _ => String::new(),
    }
}

/// Generic argument `k` of that segment as its `Debug` prints it.
#[verifier::external_body]
pub(crate) fn argument_debug(input: &proc_macro2::TokenStream, i: usize, j: usize, k: usize) -> (res: String)
    requires
        has_argument(*input, i, j, k),
    ensures
        res@ == syn_argument_debug(*input, i, j, k),
{
    let item = syn::parse2::<syn::ItemStruct>(input.clone()).unwrap();
    match &item.fields.iter().nth(i).unwrap().ty {
        syn::Type::Path(p) => match &p.path.segments[j].arguments {
            syn::PathArguments::AngleBracketed(a) => format!("{:?}", a.args[k]),
            _ => String::new(),
        },
        _ => String::new(),
    }
}

/// The kind of generic argument `k` of that segment (`GenericArgument::Type`
/// holding a `Type::Path`, another type, or not a type).
#[verifier::external_body]
pub(crate) fn argument_kind(input: &proc_macro2::TokenStream, i: usize, j: usize, k: usize) -> (res: ArgumentKind)
    requires
        has_argument(*input, i, j, k),
    ensures
        res == syn_argument_kind(*input, i, j, k),
{
    let item = syn::parse2::<syn::ItemStruct>(input.clone()).unwrap();
    match &item.fields.iter().nth(i).unwrap().ty {
        syn::Type::Path(p) => match &p.path.segments[j].arguments {
            syn::PathArguments::AngleBracketed(a) => match &a.args[k] {
                syn::GenericArgument::Type(syn::Type::Path(t)) => ArgumentKind::PathType(t.path.segments.len()),
                syn::GenericArgument::Type(_) => ArgumentKind::OtherType,
                _ => ArgumentKind::NotType,
            },
            _ => ArgumentKind::NotType,
        },
        _ => ArgumentKind::NotType,
    }
}

/// Segment `l` of the path type that is generic argument `k`, as text
/// (`to_token_stream`, printed).
#[verifier::external_body]
pub(crate) fn argument_segment_tokens(
    input: &proc_macro2::TokenStream,
    i: usize,
    j: usize,
    k: usize,
    l: usize,
) -> (res: String)
    requires
        has_argument(*input, i, j, k),
        syn_argument_kind(*input, i, j, k) matches ArgumentKind::PathType(n) && l < n,
    ensures
        res@ == syn_argument_segment_tokens(*input, i, j, k, l),
{
    let item = syn::parse2::<syn::ItemStruct>(input.clone()).unwrap();
    match &item.fields.iter().nth(i).unwrap().ty {
        syn::Type::Path(p) => match &p.path.segments[j].arguments {
            syn::PathArguments::AngleBracketed(a) => match &a.args[k] {
                syn::GenericArgument::Type(syn::Type::Path(t)) => t.path.segments[l].to_token_stream().to_string(),
                _ => String::new(),
            },
            _ => String::new(),
        },
        _ => String::new(),
    }
}

/// The number of attributes of field `i` (`Field::attrs`).
#[verifier::external_body]
pub(crate) fn attr_count(input: &proc_macro2::TokenStream, i: usize) -> (res: usize)
    requires
        has_field(*input, i),
    ensures
        res == syn_attr_count(*input, i),
{
    let item = syn::parse2::<syn::ItemStruct>(input.clone()).unwrap();
    item.fields.iter().nth(i).unwrap().attrs.len()
}

/// The number of segments of the path of attribute `a` of field `i`
/// (`Attribute::path`).
#[verifier::external_body]
pub(crate) fn attr_path_len(input: &proc_macro2::TokenStream, i: usize, a: usize) -> (res: usize)
    requires
        has_attr(*input, i, a),
    ensures
        res == syn_attr_path_len(*input, i, a),
{
    let item = syn::parse2::<syn::ItemStruct>(input.clone()).unwrap();
    item.fields.iter().nth(i).unwrap().attrs[a].path.segments.len()
}

/// The identifier of segment `s` of that path, printed.
#[verifier::external_body]
pub(crate) fn attr_path_ident(input: &proc_macro2::TokenStream, i: usize, a: usize, s: usize) -> (res: String)
    requires
        has_attr(*input, i, a),
        s < syn_attr_path_len(*input, i, a),
    ensures
        res@ == syn_attr_path_ident(*input, i, a, s),
{
    let item = syn::parse2::<syn::ItemStruct>(input.clone()).unwrap();
    item.fields.iter().nth(i).unwrap().attrs[a].path.segments[s].ident.to_string()
}

/// Calls `syn::parse2::<proc_macro2::Group>` on the tokens of attribute `a`
/// of field `i` (`Attribute::tokens`): the number of token trees in the
/// group (`Group::stream`), or syn's error message.
#[verifier::external_body]
pub(crate) fn attr_group(input: &proc_macro2::TokenStream, i: usize, a: usize) -> (res: Result<usize, String>)
    requires
        has_attr(*input, i, a),
    ensures
        match res {
            Ok(n) => syn_attr_group(*input, i, a) == Ok::<usize, Seq<char>>(n),
            Err(m) => syn_attr_group(*input, i, a) == Err::<usize, Seq<char>>(m@),
        },
{
    let item = syn::parse2::<syn::ItemStruct>(input.clone()).unwrap();
    let attr = &item.fields.iter().nth(i).unwrap().attrs[a];
    match syn::parse2::<proc_macro2::Group>(attr.tokens.clone()) {
        Ok(g) => Ok(g.stream().into_iter().count()),
        Err(e) => Err(e.to_string()),
    }
}

/// Token tree `t` of that group as a plain value: a group as the text it
/// prints to, an identifier and a literal as their text, a punctuation mark
/// as its character (`Punct::as_char`).
#[verifier::external_body]
pub(crate) fn attr_token(input: &proc_macro2::TokenStream, i: usize, a: usize, t: usize) -> (res: TokenKind)
    requires
        has_attr(*input, i, a),
        syn_attr_group(*input, i, a) matches Ok(n) && t < n,
    ensures
        res@ == syn_attr_token(*input, i, a, t),
{
    let item = syn::parse2::<syn::ItemStruct>(input.clone()).unwrap();
    let attr = &item.fields.iter().nth(i).unwrap().attrs[a];
    let group = syn::parse2::<proc_macro2::Group>(attr.tokens.clone()).unwrap();
    match group.stream().into_iter().nth(t).unwrap() {
        proc_macro2::TokenTree::Group(g) => TokenKind::Group(g.to_string()),
        proc_macro2::TokenTree::Ident(id) => TokenKind::Ident(id.to_string()),
        proc_macro2::TokenTree::Punct(p) => TokenKind::Punct(p.as_char()),
        proc_macro2::TokenTree::Literal(l) => TokenKind::Literal(l.to_string()),
    }
}

} // verus!
