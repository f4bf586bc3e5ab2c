//! The whole derive on its input: the builder's text, the error it reports
//! and where, or the panic it stops with.
use vstd::prelude::*;
use crate::analyze::{analyze, builder_name, SpecStructModel};
use crate::generate::{generate, generate_panics, error_message, spec_generate, Step};
use crate::parse::{not_named_message, spec_parse, try_parse, ParseError, SpecParseError};
use crate::syntax::{SpecAst, SpecFields, Location};

verus! {

/// What the derive comes to on its input.
#[derive(Debug)]
pub enum Expansion {
    /// The builder's source text.
    Code(String),
    /// A compile error with its message, reported at `location`.
    Error { message: String, location: Location },
    /// The derive panics with syn's message: the input is not a struct, an
    /// enum or a union.
    SyntaxPanic { message: String },
    /// The derive panics while writing the builder.
    Panic,
}

/// The view of an [`Expansion`].
pub enum SpecExpansion {
    Code(Seq<char>),
    Error { message: Seq<char>, location: Location },
    SyntaxPanic { message: Seq<char> },
    Panic,
}

impl View for Expansion {
    type V = SpecExpansion;

    open spec fn view(&self) -> SpecExpansion {
        match self {
            Expansion::Code(t) => SpecExpansion::Code(t@),
            Expansion::Error { message, location } => SpecExpansion::Error {
                message: message@,
                location: *location,
            },
            Expansion::SyntaxPanic { message } => SpecExpansion::SyntaxPanic { message: message@ },
            Expansion::Panic => SpecExpansion::Panic,
        }
    }
}

/// The model that `analyze` builds of a struct with named fields.
pub open spec fn model_of(ast: SpecAst) -> SpecStructModel {
    SpecStructModel {
        struct_ident: ast.ident,
        builder_ident: builder_name(ast.ident),
        named_fields: match ast.fields {
            SpecFields::Named(fs) => fs,
            _ => Seq::empty(),
        },
        ast,
    }
}

/// What the derive comes to on its input: reading it ([`spec_parse`]),
/// then generating the builder of its model ([`spec_generate`]). A struct
/// without named fields, an enum and a union are refused at their name.
pub open spec fn spec_expand(input: proc_macro2::TokenStream) -> SpecExpansion {
    match spec_parse(input) {
        Err(SpecParseError::Syntax(m)) => SpecExpansion::SyntaxPanic { message: m },
        Err(_) => SpecExpansion::Error { message: not_named_message(), location: Location::StructIdent },
        Ok(ast) => match spec_generate(model_of(ast)) {
            Step::Done(t) => SpecExpansion::Code(t),
            Step::Abort(d) => SpecExpansion::Error { message: error_message(d.error), location: d.location },
            Step::Panic => SpecExpansion::Panic,
        },
    }
}

/// The derive on its input, as [`spec_expand`] states it.
pub fn expand(input: proc_macro2::TokenStream) -> (res: Expansion)
    ensures
        res@ == spec_expand(input),
        spec_parse(input) is Err ==> !(res@ is Code),
        res@ is Code ==> spec_parse(input) is Ok,
{
    let ast = match try_parse(input) {
        Ok(ast) => ast,
        Err(ParseError::Syntax { message }) => {
            return Expansion::SyntaxPanic { message };
        },
        Err(e) => {
            return Expansion::Error { message: e.to_string(), location: e.location() };
        },
    };
    let model = analyze(ast);
    assert(model@ == model_of(ast@));
    if generate_panics(&model) {
        return Expansion::Panic;
    }
    match generate(&model) {
        Ok(text) => Expansion::Code(text),
        Err(d) => Expansion::Error { message: d.error.message(), location: d.location },
    }
}


/// The derive gives builder code only for a struct with named fields:
/// where the input is not such a struct (an enum, a union, a tuple or unit
/// struct, or text that is no item), it reports an error or panics, and
/// never hands back code.
pub proof fn law_code_only_for_named_structs(input: proc_macro2::TokenStream)
    ensures
        spec_expand(input) is Code ==> (spec_parse(input) matches Ok(ast) && ast.fields is Named),
        spec_parse(input) is Err ==> !(spec_expand(input) is Code),
{
}

} // verus!
