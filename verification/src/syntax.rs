//! Plain model of the struct definitions that the builder derive reads.
//!
//! Each type keeps, as plain values, the parts of the corresponding `syn`
//! syntax tree that the derive looks at; its view is the same data in
//! mathematical form.
use vstd::prelude::*;

verus! {

/// The view of a list of strings.
pub open spec fn strings_view(v: Seq<String>) -> Seq<Seq<char>> {
    v.map_values(|s: String| s@)
}

/// Clones a list of strings, keeping its view.
pub fn clone_strings(v: &Vec<String>) -> (res: Vec<String>)
    ensures
        strings_view(res@) == strings_view(v@),
{
    let res = v.clone();
    assert(strings_view(res@) =~= strings_view(v@));
    res
}

/// Where a part of the derive's input stands, by position, so that an error
/// can be reported at it: the input's own positions for a model that
/// `parse` reads.
#[derive(Debug, Clone, Copy, PartialEq, Eq, Structural)]
pub enum Location {
    /// No part of the input: where the derive was called.
    CallSite,
    /// The struct's name.
    StructIdent,
    /// The type of field `i`.
    FieldType(usize),
    /// Segment `j` of the path of the type of field `i`.
    Segment(usize, usize),
    /// Generic argument `k` of that segment.
    Argument(usize, usize, usize),
    /// The delimited group of attribute `a` of field `i`.
    AttrGroup(usize, usize),
    /// Token tree `t` inside that group.
    AttrToken(usize, usize, usize),
}

/// What one token of the stream inside an attribute's delimiters is.
#[derive(Debug)]
pub enum TokenKind {
    /// A delimited group, kept as the text that it prints to.
    Group(String),
    /// An identifier, as written.
    Ident(String),
    /// A single punctuation character.
    Punct(char),
    /// A literal, as written (a string literal keeps its quotes).
    Literal(String),
}

/// The view of a [`TokenKind`].
pub enum SpecTokenKind {
    Group(Seq<char>),
    Ident(Seq<char>),
    Punct(char),
    Literal(Seq<char>),
}

impl View for TokenKind {
    type V = SpecTokenKind;

    open spec fn view(&self) -> SpecTokenKind {
        match self {
            TokenKind::Group(s) => SpecTokenKind::Group(s@),
            TokenKind::Ident(s) => SpecTokenKind::Ident(s@),
            TokenKind::Punct(c) => SpecTokenKind::Punct(*c),
            TokenKind::Literal(s) => SpecTokenKind::Literal(s@),
        }
    }
}

impl Clone for TokenKind {
    fn clone(&self) -> (res: Self)
        ensures
            res@ == self@,
    {
        match self {
            TokenKind::Group(s) => TokenKind::Group(s.clone()),
            TokenKind::Ident(s) => TokenKind::Ident(s.clone()),
            TokenKind::Punct(c) => TokenKind::Punct(*c),
            TokenKind::Literal(s) => TokenKind::Literal(s.clone()),
        }
    }
}

/// One token of the stream inside an attribute's delimiters, and where it
/// stands.
#[derive(Debug)]
pub struct Token {
    pub kind: TokenKind,
    pub location: Location,
}

/// The view of a [`Token`].
pub struct SpecToken {
    pub kind: SpecTokenKind,
    pub location: Location,
}

impl View for Token {
    type V = SpecToken;

    open spec fn view(&self) -> SpecToken {
        SpecToken { kind: self.kind@, location: self.location }
    }
}

impl Clone for Token {
    fn clone(&self) -> (res: Self)
        ensures
            res@ == self@,
    {
        Token { kind: self.kind.clone(), location: self.location }
    }
}

/// The view of a list of token trees.
pub open spec fn trees_view(v: Seq<Token>) -> Seq<SpecToken> {
    v.map_values(|t: Token| t@)
}

/// An attribute on a field: `#[path tokens]`.
#[derive(Debug)]
pub struct Attr {
    /// The identifiers of the attribute's path segments, in order.
    pub path: Vec<String>,
    /// The tokens after the path, read as one delimited group: the token
    /// trees inside the group, or the message of the error that reading
    /// them as a group gave.
    pub group: Result<Vec<Token>, String>,
    /// Where the group stands.
    pub location: Location,
}

/// The view of an [`Attr`].
pub struct SpecAttr {
    pub path: Seq<Seq<char>>,
    pub group: Result<Seq<SpecToken>, Seq<char>>,
    pub location: Location,
}

impl View for Attr {
    type V = SpecAttr;

    open spec fn view(&self) -> SpecAttr {
        SpecAttr {
            path: strings_view(self.path@),
            group: match &self.group {
                Ok(v) => Ok(trees_view(v@)),
                Err(s) => Err(s@),
            },
            location: self.location,
        }
    }
}

impl Clone for Attr {
    fn clone(&self) -> (res: Self)
        ensures
            res@ == self@,
    {
        let group = match &self.group {
            Ok(v) => {
                let c = v.clone();
                assert(trees_view(c@) =~= trees_view(v@));
                Ok(c)
            },
            Err(s) => Err(s.clone()),
        };
        Attr { path: clone_strings(&self.path), group, location: self.location }
    }
}

/// The view of a list of attributes.
pub open spec fn attrs_view(v: Seq<Attr>) -> Seq<SpecAttr> {
    v.map_values(|a: Attr| a@)
}

/// A generic argument of a path segment, as in `Vec<T>`. Each kind keeps
/// the argument as text and as its `Debug` form, which error messages show.
#[derive(Debug)]
pub enum TypeArg {
    /// A type argument; where it is a path type, the text of each of its
    /// path segments in order.
    Type { tokens: String, debug: String, path: Option<Vec<String>>, location: Location },
    /// Any other argument (a lifetime, a constant, a binding).
    Other { tokens: String, debug: String, location: Location },
}

/// The view of a [`TypeArg`].
pub enum SpecTypeArg {
    Type { tokens: Seq<char>, debug: Seq<char>, path: Option<Seq<Seq<char>>>, location: Location },
    Other { tokens: Seq<char>, debug: Seq<char>, location: Location },
}

impl View for TypeArg {
    type V = SpecTypeArg;

    open spec fn view(&self) -> SpecTypeArg {
        match self {
            TypeArg::Type { tokens, debug, path, location } => SpecTypeArg::Type {
                tokens: tokens@,
                debug: debug@,
                path: match path {
                    Some(p) => Some(strings_view(p@)),
                    None => None,
                },
                location: *location,
            },
            TypeArg::Other { tokens, debug, location } => SpecTypeArg::Other {
                tokens: tokens@,
                debug: debug@,
                location: *location,
            },
        }
    }
}

impl Clone for TypeArg {
    fn clone(&self) -> (res: Self)
        ensures
            res@ == self@,
    {
        match self {
            TypeArg::Type { tokens, debug, path, location } => {
                let path = match path {
                    Some(p) => Some(clone_strings(p)),
                    None => None,
                };
                TypeArg::Type { tokens: tokens.clone(), debug: debug.clone(), path, location: *location }
            },
            TypeArg::Other { tokens, debug, location } => TypeArg::Other {
                tokens: tokens.clone(),
                debug: debug.clone(),
                location: *location,
            },
        }
    }
}

/// The view of a list of generic arguments.
pub open spec fn args_view(v: Seq<TypeArg>) -> Seq<SpecTypeArg> {
    v.map_values(|a: TypeArg| a@)
}

/// The arguments that follow a path segment's identifier.
#[derive(Debug)]
pub enum PathArguments {
    /// No arguments, as in `String`.
    Bare,
    /// Arguments in angle brackets, as in `Vec<String>`.
    AngleBracketed(Vec<TypeArg>),
    /// Arguments in parentheses, as in `Fn(u8) -> u8`.
    Parenthesized,
}

/// The view of [`PathArguments`].
pub enum SpecPathArguments {
    Bare,
    AngleBracketed(Seq<SpecTypeArg>),
    Parenthesized,
}

impl View for PathArguments {
    type V = SpecPathArguments;

    open spec fn view(&self) -> SpecPathArguments {
        match self {
            PathArguments::Bare => SpecPathArguments::Bare,
            PathArguments::AngleBracketed(v) => SpecPathArguments::AngleBracketed(args_view(v@)),
            PathArguments::Parenthesized => SpecPathArguments::Parenthesized,
        }
    }
}

impl Clone for PathArguments {
    fn clone(&self) -> (res: Self)
        ensures
            res@ == self@,
    {
        match self {
            PathArguments::Bare => PathArguments::Bare,
            PathArguments::AngleBracketed(v) => {
                let c = v.clone();
                assert(args_view(c@) =~= args_view(v@));
                PathArguments::AngleBracketed(c)
            },
            PathArguments::Parenthesized => PathArguments::Parenthesized,
        }
    }
}

/// One segment of a type's path, as `Vec<String>` in `std::vec::Vec<String>`.
#[derive(Debug)]
pub struct Segment {
    /// The segment's identifier.
    pub ident: String,
    /// The whole segment as text.
    pub tokens: String,
    /// The segment's arguments.
    pub arguments: PathArguments,
    /// Where the segment stands.
    pub location: Location,
}

/// The view of a [`Segment`].
pub struct SpecSegment {
    pub ident: Seq<char>,
    pub tokens: Seq<char>,
    pub arguments: SpecPathArguments,
    pub location: Location,
}

impl View for Segment {
    type V = SpecSegment;

    open spec fn view(&self) -> SpecSegment {
        SpecSegment {
            ident: self.ident@,
            tokens: self.tokens@,
            arguments: self.arguments@,
            location: self.location,
        }
    }
}

impl Clone for Segment {
    fn clone(&self) -> (res: Self)
        ensures
            res@ == self@,
    {
        Segment {
            ident: self.ident.clone(),
            tokens: self.tokens.clone(),
            arguments: self.arguments.clone(),
            location: self.location,
        }
    }
}

/// The view of a list of path segments.
pub open spec fn segments_view(v: Seq<Segment>) -> Seq<SpecSegment> {
    v.map_values(|s: Segment| s@)
}

/// The type of a field.
#[derive(Debug)]
pub struct FieldType {
    /// The whole type as text.
    pub tokens: String,
    /// Where the type is a path type, the segments of its path in order.
    pub path: Option<Vec<Segment>>,
    /// Where the type stands.
    pub location: Location,
}

/// The view of a [`FieldType`].
pub struct SpecFieldType {
    pub tokens: Seq<char>,
    pub path: Option<Seq<SpecSegment>>,
    pub location: Location,
}

impl View for FieldType {
    type V = SpecFieldType;

    open spec fn view(&self) -> SpecFieldType {
        SpecFieldType {
            tokens: self.tokens@,
            path: match &self.path {
                Some(p) => Some(segments_view(p@)),
                None => None,
            },
            location: self.location,
        }
    }
}

impl Clone for FieldType {
    fn clone(&self) -> (res: Self)
        ensures
            res@ == self@,
    {
        let path = match &self.path {
            Some(p) => {
                let c = p.clone();
                assert(segments_view(c@) =~= segments_view(p@));
                Some(c)
            },
            None => None,
        };
        FieldType { tokens: self.tokens.clone(), path, location: self.location }
    }
}

/// A field of a struct.
#[derive(Debug)]
pub struct FieldDef {
    /// The field's name; a field of a tuple struct has none.
    pub ident: Option<String>,
    /// The field's type.
    pub ty: FieldType,
    /// The attributes on the field, in order.
    pub attrs: Vec<Attr>,
}

/// The view of a [`FieldDef`].
pub struct SpecFieldDef {
    pub ident: Option<Seq<char>>,
    pub ty: SpecFieldType,
    pub attrs: Seq<SpecAttr>,
}

impl View for FieldDef {
    type V = SpecFieldDef;

    open spec fn view(&self) -> SpecFieldDef {
        SpecFieldDef {
            ident: match &self.ident {
                Some(s) => Some(s@),
                None => None,
            },
            ty: self.ty@,
            attrs: attrs_view(self.attrs@),
        }
    }
}

impl Clone for FieldDef {
    fn clone(&self) -> (res: Self)
        ensures
            res@ == self@,
    {
        let ident = match &self.ident {
            Some(s) => Some(s.clone()),
            None => None,
        };
        let attrs = self.attrs.clone();
        assert(attrs_view(attrs@) =~= attrs_view(self.attrs@));
        FieldDef { ident, ty: self.ty.clone(), attrs }
    }
}

/// The view of a list of fields.
pub open spec fn fields_view(v: Seq<FieldDef>) -> Seq<SpecFieldDef> {
    v.map_values(|f: FieldDef| f@)
}

/// Clones a list of fields, keeping its view.
pub fn clone_fields(v: &Vec<FieldDef>) -> (res: Vec<FieldDef>)
    ensures
        fields_view(res@) == fields_view(v@),
{
    let res = v.clone();
    assert(fields_view(res@) =~= fields_view(v@));
    res
}

/// The fields of a struct.
#[derive(Debug)]
pub enum Fields {
    /// `struct S { a: A, b: B }`
    Named(Vec<FieldDef>),
    /// `struct S(A, B);`
    Unnamed(Vec<FieldDef>),
    /// `struct S;`
    Unit,
}

/// The view of [`Fields`].
pub enum SpecFields {
    Named(Seq<SpecFieldDef>),
    Unnamed(Seq<SpecFieldDef>),
    Unit,
}

impl View for Fields {
    type V = SpecFields;

    open spec fn view(&self) -> SpecFields {
        match self {
            Fields::Named(v) => SpecFields::Named(fields_view(v@)),
            Fields::Unnamed(v) => SpecFields::Unnamed(fields_view(v@)),
            Fields::Unit => SpecFields::Unit,
        }
    }
}

/// A struct definition: `struct Ident fields`.
#[derive(Debug)]
pub struct Ast {
    /// The struct's name.
    pub ident: String,
    /// The struct's fields.
    pub fields: Fields,
}

/// The view of an [`Ast`].
pub struct SpecAst {
    pub ident: Seq<char>,
    pub fields: SpecFields,
}

impl View for Ast {
    type V = SpecAst;

    open spec fn view(&self) -> SpecAst {
        SpecAst { ident: self.ident@, fields: self.fields@ }
    }
}

} // verus!
