//! The model of a struct that the generator works from.
use vstd::prelude::*;
use crate::syntax::{clone_fields, fields_view, Ast, FieldDef, Fields, SpecAst, SpecFieldDef};

verus! {

/// The name of the builder of the struct named `s`: `s` followed by
/// `Builder`.
pub open spec fn builder_name(s: Seq<char>) -> Seq<char> {
    s + "Builder"@
}

/// A struct with named fields: its name, its fields and its definition.
#[derive(Debug)]
pub struct StructModel {
    /// The struct's name.
    pub struct_ident: String,
    /// The name of the struct's builder.
    pub builder_ident: String,
    /// The struct's named fields, in order.
    pub named_fields: Vec<FieldDef>,
    /// The struct's definition.
    pub ast: Ast,
}

/// The view of a [`StructModel`].
pub struct SpecStructModel {
    pub struct_ident: Seq<char>,
    pub builder_ident: Seq<char>,
    pub named_fields: Seq<SpecFieldDef>,
    pub ast: SpecAst,
}

impl View for StructModel {
    type V = SpecStructModel;

    open spec fn view(&self) -> SpecStructModel {
        SpecStructModel {
            struct_ident: self.struct_ident@,
            builder_ident: self.builder_ident@,
            named_fields: fields_view(self.named_fields@),
            ast: self.ast@,
        }
    }
}

/// Builds the model of a struct with named fields from its definition.
///
/// The model's name is the struct's name, its builder is named after it
/// with `Builder` added, and its fields are the struct's named fields, in
/// order; the definition is kept as it is.
pub fn analyze(ast: Ast) -> (res: StructModel)
    requires
        ast@.fields is Named,
    ensures
        res@.struct_ident == ast@.ident,
        res@.builder_ident == builder_name(ast@.ident),
        res@.ast == ast@,
        ast@.fields == crate::syntax::SpecFields::Named(res@.named_fields),
{
    let struct_ident = ast.ident.clone();
    let mut builder_ident = ast.ident.clone();
    builder_ident.append("Builder");
    let named_fields = match &ast.fields {
        Fields::Named(fields) => clone_fields(fields),
        _ => Vec::new(),
    };
    StructModel { struct_ident, builder_ident, named_fields, ast }
}

} // verus!
