//! Generating the builder's source text from a struct model.
use vstd::prelude::*;
use crate::analyze::{SpecStructModel, StructModel};
use crate::syntax::{
    args_view, fields_view, trees_view, FieldDef, PathArguments, SpecFieldDef, SpecPathArguments,
    Location, SpecToken, SpecTokenKind, SpecTypeArg, TokenKind, TypeArg,
};
use crate::text::{
    append_decimal, ascii_ident, contains_text, decimal, is_valid_ident, law_ascii_identifiers,
    lemma_contains_extend, lemma_contains_middle, lemma_contains_trans, push_char, remove_quotes,
    str_eq, strip_quotes, valid_ident,
};

verus! {

/// Why the builder could not be generated for a field.
#[derive(Debug)]
pub enum GenerateError {
    /// The field's type is not a path type.
    NoType,
    /// The field's type has a path without segments.
    NoSegments,
    /// The first segment of the field's type has no angle-bracketed arguments.
    NoSegmentArguments,
    /// The first segment of the field's type has empty angle brackets.
    NoGenericArgument,
    /// The first generic argument is a path type without segments; the
    /// argument in its `Debug` form.
    NoPathSegmentsOnArgument { argument: String },
    /// The first generic argument is not a path type; the argument in its
    /// `Debug` form.
    UnexpectedArgument { argument: String },
    /// The `builder` attribute holds a nested group.
    UnexpectedGroup { group: String },
    /// The `builder` attribute holds an identifier other than `each`.
    ExpectedEach,
    /// The `builder` attribute holds a punctuation mark other than `=`
    /// after its identifier.
    ExpectedEquals { ident: String, punct: char },
    /// The `builder` attribute holds no literal.
    MissingLiteral,
    /// The tokens of the attribute are not one delimited group.
    GroupParse { message: String },
    /// The attribute's path has a number of segments other than one.
    PathSegmentCount { count: usize },
    /// The field has more than one attribute.
    AttributeCount { count: usize },
}

/// The view of a [`GenerateError`].
pub enum SpecGenerateError {
    NoType,
    NoSegments,
    NoSegmentArguments,
    NoGenericArgument,
    NoPathSegmentsOnArgument { argument: Seq<char> },
    UnexpectedArgument { argument: Seq<char> },
    UnexpectedGroup { group: Seq<char> },
    ExpectedEach,
    ExpectedEquals { ident: Seq<char>, punct: char },
    MissingLiteral,
    GroupParse { message: Seq<char> },
    PathSegmentCount { count: nat },
    AttributeCount { count: nat },
}

impl View for GenerateError {
    type V = SpecGenerateError;

    open spec fn view(&self) -> SpecGenerateError {
        match self {
            GenerateError::NoType => SpecGenerateError::NoType,
            GenerateError::NoSegments => SpecGenerateError::NoSegments,
            GenerateError::NoSegmentArguments => SpecGenerateError::NoSegmentArguments,
            GenerateError::NoGenericArgument => SpecGenerateError::NoGenericArgument,
            GenerateError::NoPathSegmentsOnArgument { argument } =>
                SpecGenerateError::NoPathSegmentsOnArgument { argument: argument@ },
            GenerateError::UnexpectedArgument { argument } =>
                SpecGenerateError::UnexpectedArgument { argument: argument@ },
            GenerateError::UnexpectedGroup { group } =>
                SpecGenerateError::UnexpectedGroup { group: group@ },
            GenerateError::ExpectedEach => SpecGenerateError::ExpectedEach,
            GenerateError::ExpectedEquals { ident, punct } =>
                SpecGenerateError::ExpectedEquals { ident: ident@, punct: *punct },
            GenerateError::MissingLiteral => SpecGenerateError::MissingLiteral,
            GenerateError::GroupParse { message } =>
                SpecGenerateError::GroupParse { message: message@ },
            GenerateError::PathSegmentCount { count } =>
                SpecGenerateError::PathSegmentCount { count: *count as nat },
            GenerateError::AttributeCount { count } =>
                SpecGenerateError::AttributeCount { count: *count as nat },
        }
    }
}

/// An error that the derive reports, and where in its input it reports it.
#[derive(Debug)]
pub struct Diagnostic {
    pub error: GenerateError,
    pub location: Location,
}

/// The view of a [`Diagnostic`].
pub struct SpecDiagnostic {
    pub error: SpecGenerateError,
    pub location: Location,
}

impl View for Diagnostic {
    type V = SpecDiagnostic;

    open spec fn view(&self) -> SpecDiagnostic {
        SpecDiagnostic { error: self.error@, location: self.location }
    }
}

/// The error `e` reported at `location`.
pub open spec fn diag(e: SpecGenerateError, location: Location) -> SpecDiagnostic {
    SpecDiagnostic { error: e, location }
}

/// What a step of the generation comes to: a value, an error that the
/// derive reports, or a panic of the derive.
pub enum Step<T> {
    Done(T),
    Abort(SpecDiagnostic),
    Panic,
}

// ----------------------------------------------------------------------
// Reading a field

/// The text of a field's name; empty for a field without one.
pub open spec fn ident_text(f: SpecFieldDef) -> Seq<char> {
    match f.ident {
        Some(s) => s,
        None => Seq::empty(),
    }
}

/// The field's type is a path whose first segment is named `name`.
pub open spec fn first_segment_is(f: SpecFieldDef, name: Seq<char>) -> bool {
    match f.ty.path {
        Some(segments) => segments.len() > 0 && segments[0].ident == name,
        None => false,
    }
}

/// The field's type is an `Option<..>`: the field may be left unset.
pub open spec fn is_optional(f: SpecFieldDef) -> bool {
    first_segment_is(f, "Option"@)
}

/// The field's type is a `Vec<..>`: the field may be filled item by item.
pub open spec fn is_repeated(f: SpecFieldDef) -> bool {
    first_segment_is(f, "Vec"@)
}

/// The text of the first path segment of the first generic argument.
///
/// An argument that is not a path type is reported at the argument; empty
/// angle brackets, and a path without segments, have no tokens to report
/// at and are reported where the derive was called.
pub open spec fn inner_type(args: Seq<SpecTypeArg>) -> Result<Seq<char>, SpecDiagnostic> {
    if args.len() == 0 {
        Err(diag(SpecGenerateError::NoGenericArgument, Location::CallSite))
    } else {
        match args[0] {
            SpecTypeArg::Type { debug, path: Some(segments), .. } => if segments.len() > 0 {
                Ok(segments[0])
            } else {
                Err(diag(SpecGenerateError::NoPathSegmentsOnArgument { argument: debug }, Location::CallSite))
            },
            SpecTypeArg::Type { debug, path: None, location, .. } => Err(
                diag(SpecGenerateError::UnexpectedArgument { argument: debug }, location),
            ),
            SpecTypeArg::Other { debug, location, .. } => Err(
                diag(SpecGenerateError::UnexpectedArgument { argument: debug }, location),
            ),
        }
    }
}

/// The text of the type inside the field's type, as `T` in `Option<T>`.
///
/// A type that is not a path is reported at the type, a first segment
/// without angle brackets at that segment, and a path without segments
/// where the derive was called.
pub open spec fn inner_type_of_field(f: SpecFieldDef) -> Result<Seq<char>, SpecDiagnostic> {
    match f.ty.path {
        Some(segments) => if segments.len() > 0 {
            match segments[0].arguments {
                SpecPathArguments::AngleBracketed(args) => inner_type(args),
                _ => Err(diag(SpecGenerateError::NoSegmentArguments, segments[0].location)),
            }
        } else {
            Err(diag(SpecGenerateError::NoSegments, Location::CallSite))
        },
        None => Err(diag(SpecGenerateError::NoType, f.ty.location)),
    }
}

// ----------------------------------------------------------------------
// Executable reading of a field

/// Whether the field's type is a path whose first segment is named `name`.
pub fn is_name_of_first_path_segment_of_field(field: &FieldDef, name: &str) -> (res: bool)
    ensures
        res == first_segment_is(field@, name@),
{
    match &field.ty.path {
        Some(segments) => if segments.len() > 0 {
            str_eq(segments[0].ident.as_str(), name)
        } else {
            false
        },
        None => false,
    }
}

/// Whether the field's type is an `Option<..>`.
pub fn is_optional_field(field: &FieldDef) -> (res: bool)
    ensures
        res == is_optional(field@),
{
    is_name_of_first_path_segment_of_field(field, "Option")
}

/// Whether the field's type is a `Vec<..>`.
pub fn is_repeated_field(field: &FieldDef) -> (res: bool)
    ensures
        res == is_repeated(field@),
{
    is_name_of_first_path_segment_of_field(field, "Vec")
}

/// The text of the first path segment of the first generic argument, or
/// the error that says why there is none.
pub fn extract_inner_type(args: &Vec<TypeArg>) -> (res: Result<String, Diagnostic>)
    ensures
        match (res, inner_type(args_view(args@))) {
            (Ok(s), Ok(t)) => s@ == t,
            (Err(e), Err(f)) => e@ == f,
            _ => false,
        },
{
    if args.len() == 0 {
        return Err(Diagnostic { error: GenerateError::NoGenericArgument, location: Location::CallSite });
    }
    match &args[0] {
        TypeArg::Type { debug, path: Some(segments), .. } => if segments.len() > 0 {
            Ok(segments[0].clone())
        } else {
            Err(Diagnostic {
                error: GenerateError::NoPathSegmentsOnArgument { argument: debug.clone() },
                location: Location::CallSite,
            })
        },
        TypeArg::Type { debug, path: None, location, .. } => Err(Diagnostic {
            error: GenerateError::UnexpectedArgument { argument: debug.clone() },
            location: *location,
        }),
        TypeArg::Other { debug, location, .. } => Err(Diagnostic {
            error: GenerateError::UnexpectedArgument { argument: debug.clone() },
            location: *location,
        }),
    }
}

/// The text of the type inside the field's type, as `T` in `Option<T>`, or
/// the error that says why there is none.
pub fn extract_inner_type_of_field(field: &FieldDef) -> (res: Result<String, Diagnostic>)
    ensures
        match (res, inner_type_of_field(field@)) {
            (Ok(s), Ok(t)) => s@ == t,
            (Err(e), Err(f)) => e@ == f,
            _ => false,
        },
{
    match &field.ty.path {
        Some(segments) => if segments.len() > 0 {
            match &segments[0].arguments {
                PathArguments::AngleBracketed(args) => extract_inner_type(args),
                _ => Err(Diagnostic {
                    error: GenerateError::NoSegmentArguments,
                    location: segments[0].location,
                }),
            }
        } else {
            Err(Diagnostic { error: GenerateError::NoSegments, location: Location::CallSite })
        },
        None => Err(Diagnostic { error: GenerateError::NoType, location: field.ty.location }),
    }
}

// ----------------------------------------------------------------------
// The `builder(each = "...")` attribute

/// The view of an optional string.
pub open spec fn opt_view(o: Option<String>) -> Option<Seq<char>> {
    match o {
        Some(s) => Some(s@),
        None => None,
    }
}

/// Where the reading of an attribute's tokens stands.
pub enum ScanState {
    /// Still reading: the `each` identifier and the last literal seen so far.
    Reading { ident: Option<Seq<char>>, literal: Option<Seq<char>> },
    /// Stopped on an error, reported at the offending token.
    Aborted(SpecDiagnostic),
    /// Stopped on a panic: a punctuation mark other than `=` came before
    /// any identifier, and the error message would name that identifier.
    Panicked,
}

/// Reads one more token of the attribute.
pub open spec fn scan_step(state: ScanState, t: SpecToken) -> ScanState {
    match state {
        ScanState::Reading { ident, literal } => match t.kind {
            SpecTokenKind::Group(g) => ScanState::Aborted(
                diag(SpecGenerateError::UnexpectedGroup { group: g }, t.location),
            ),
            SpecTokenKind::Ident(id) => if id == "each"@ {
                ScanState::Reading { ident: Some(id), literal }
            } else {
                ScanState::Aborted(diag(SpecGenerateError::ExpectedEach, t.location))
            },
            SpecTokenKind::Punct(p) => if p == '=' {
                ScanState::Reading { ident, literal }
            } else {
                match ident {
                    Some(i) => ScanState::Aborted(
                        diag(SpecGenerateError::ExpectedEquals { ident: i, punct: p }, t.location),
                    ),
                    None => ScanState::Panicked,
                }
            },
            SpecTokenKind::Literal(l) => ScanState::Reading { ident, literal: Some(l) },
        },
        _ => state,
    }
}

/// Reads the tokens of an attribute's group, in order.
pub open spec fn scan(ts: Seq<SpecToken>) -> ScanState
    decreases ts.len(),
{
    if ts.len() == 0 {
        ScanState::Reading { ident: None, literal: None }
    } else {
        scan_step(scan(ts.drop_last()), ts.last())
    }
}

/// The literal of the field's `builder(each = "...")` attribute: none where
/// the field has no attribute, the literal where it has exactly one
/// well-formed attribute, and otherwise the error (or panic) that the first
/// offending part gives. An offending token is reported at that token, a
/// group without a literal at the group, and the other errors where the
/// derive was called.
pub open spec fn each_literal(f: SpecFieldDef) -> Step<Option<Seq<char>>> {
    if f.attrs.len() == 0 {
        Step::Done(None)
    } else if f.attrs.len() == 1 {
        let a = f.attrs[0];
        if a.path.len() == 1 {
            match a.group {
                Ok(ts) => match scan(ts) {
                    ScanState::Reading { literal: Some(l), .. } => Step::Done(Some(l)),
                    ScanState::Reading { literal: None, .. } => Step::Abort(
                        diag(SpecGenerateError::MissingLiteral, a.location),
                    ),
                    ScanState::Aborted(e) => Step::Abort(e),
                    ScanState::Panicked => Step::Panic,
                },
                Err(m) => Step::Abort(diag(SpecGenerateError::GroupParse { message: m }, Location::CallSite)),
            }
        } else {
            Step::Abort(diag(SpecGenerateError::PathSegmentCount { count: a.path.len() }, Location::CallSite))
        }
    } else {
        Step::Abort(diag(SpecGenerateError::AttributeCount { count: f.attrs.len() }, Location::CallSite))
    }
}

/// Once the reading of an attribute has stopped, further tokens change
/// nothing.
pub proof fn lemma_scan_stops(ts: Seq<SpecToken>, k: int)
    requires
        0 <= k <= ts.len(),
        !(scan(ts.take(k)) is Reading),
    ensures
        scan(ts) == scan(ts.take(k)),
    decreases ts.len(),
{
    if k == ts.len() {
        assert(ts.take(k) =~= ts);
    } else {
        assert(ts.drop_last().take(k) =~= ts.take(k));
        lemma_scan_stops(ts.drop_last(), k);
    }
}

/// What a step of the generation comes to, in executable form.
pub enum Outcome<T> {
    Done(T),
    Abort(Diagnostic),
    Panic,
}

/// The literal of the field's `builder(each = "...")` attribute, as
/// [`each_literal`] states it.
pub fn literal_from_builder_each_attribute(field: &FieldDef) -> (res: Outcome<Option<String>>)
    ensures
        match (res, each_literal(field@)) {
            (Outcome::Done(o), Step::Done(p)) => opt_view(o) == p,
            (Outcome::Abort(e), Step::Abort(f)) => e@ == f,
            (Outcome::Panic, Step::Panic) => true,
            _ => false,
        },
{
    let n = field.attrs.len();
    if n == 0 {
        return Outcome::Done(None);
    }
    if n != 1 {
        return Outcome::Abort(
            Diagnostic { error: GenerateError::AttributeCount { count: n }, location: Location::CallSite },
        );
    }
    let attr = &field.attrs[0];
    let segment_count = attr.path.len();
    if segment_count != 1 {
        return Outcome::Abort(Diagnostic {
            error: GenerateError::PathSegmentCount { count: segment_count },
            location: Location::CallSite,
        });
    }
    let tokens = match &attr.group {
        Ok(tokens) => tokens,
        Err(m) => {
            return Outcome::Abort(Diagnostic {
                error: GenerateError::GroupParse { message: m.clone() },
                location: Location::CallSite,
            });
        },
    };
    let ghost ts = trees_view(tokens@);
    let mut ident: Option<String> = None;
    let mut literal: Option<String> = None;
    assert(ts.take(0) =~= Seq::<SpecToken>::empty());
    for i in 0..tokens.len()
        invariant
            ts == trees_view(tokens@),
            field@.attrs.len() == 1,
            field@.attrs[0].path.len() == 1,
            field@.attrs[0].group == Ok::<Seq<SpecToken>, Seq<char>>(ts),
            scan(ts.take(i as int)) == (ScanState::Reading {
                ident: opt_view(ident),
                literal: opt_view(literal),
            }),
    {
        assert(ts.take(i + 1).drop_last() =~= ts.take(i as int));
        assert(ts.take(i + 1).last() == tokens@[i as int]@);
        let location = tokens[i].location;
        match &tokens[i].kind {
            TokenKind::Group(g) => {
                proof { lemma_scan_stops(ts, i + 1); }
                return Outcome::Abort(
                    Diagnostic { error: GenerateError::UnexpectedGroup { group: g.clone() }, location },
                );
            },
            TokenKind::Ident(id) => {
                if !str_eq(id.as_str(), "each") {
                    proof { lemma_scan_stops(ts, i + 1); }
                    return Outcome::Abort(Diagnostic { error: GenerateError::ExpectedEach, location });
                }
                ident = Some(id.clone());
            },
            TokenKind::Punct(p) => {
                if *p != '=' {
                    match &ident {
                        Some(id) => {
                            proof { lemma_scan_stops(ts, i + 1); }
                            return Outcome::Abort(Diagnostic {
                                error: GenerateError::ExpectedEquals { ident: id.clone(), punct: *p },
                                location,
                            });
                        },
                        None => {
                            proof { lemma_scan_stops(ts, i + 1); }
                            return Outcome::Panic;
                        },
                    }
                }
            },
            TokenKind::Literal(l) => {
                literal = Some(l.clone());
            },
        }
    }
    assert(ts.take(tokens.len() as int) =~= ts);
    match literal {
        Some(l) => Outcome::Done(Some(l)),
        None => Outcome::Abort(Diagnostic { error: GenerateError::MissingLiteral, location: attr.location }),
    }
}

// ----------------------------------------------------------------------
// The setters

/// The path by which the generated code wraps a set value.
pub open spec fn option_some() -> Seq<char> {
    "std::option::Option::Some"@
}

/// A setter named `name` that takes a value of type `ty` and stores it,
/// wrapped by `some`, in the builder field of the same name.
pub open spec fn setter_text(name: Seq<char>, ty: Seq<char>, some: Seq<char>) -> Seq<char> {
    "fn "@ + name + "(&mut self, "@ + name + ": "@ + ty + ") -> &mut Self { self."@ + name
        + " = "@ + some + "("@ + name + "); self } "@
}

/// A setter named `each` that adds one item of type `inner` to the vector
/// in the builder field `name`, starting the vector where it is unset.
pub open spec fn each_setter_text(each: Seq<char>, name: Seq<char>, inner: Seq<char>) -> Seq<char> {
    "fn "@ + each + "(&mut self, param: "@ + inner
        + ") -> &mut Self { if let Some(temp_v) = &mut self."@ + name
        + " { temp_v.push(param); } else { let mut new_v = std::vec::Vec::new(); new_v.push(param); self."@
        + name + " = std::option::Option::Some(new_v); } self } "@
}

/// The setters of one field.
///
/// An optional field gets a setter that takes the inner type. A repeated
/// field gets a setter for the whole vector and, where it has a
/// `builder(each = "...")` attribute, a setter for one item named by the
/// attribute's literal without its quotes; where that name is the field's
/// own name, the setter for one item stands alone; where that name is not
/// an identifier, the derive panics (in `Ident::new`). Any other field gets
/// a setter that takes its type.
pub open spec fn field_setter(f: SpecFieldDef) -> Step<Seq<char>> {
    let name = ident_text(f);
    if is_optional(f) {
        match inner_type_of_field(f) {
            Ok(t) => Step::Done(setter_text(name, t, option_some())),
            Err(e) => Step::Abort(e),
        }
    } else if is_repeated(f) {
        let all = setter_text(name, f.ty.tokens, option_some());
        match each_literal(f) {
            Step::Done(Some(lit)) => {
                let each = strip_quotes(lit);
                if !valid_ident(each) {
                    Step::Panic
                } else {
                    match inner_type_of_field(f) {
                        Ok(t) => if f.ident == Some(each) {
                            Step::Done(each_setter_text(each, name, t))
                        } else {
                            Step::Done(all + each_setter_text(each, name, t))
                        },
                        Err(e) => Step::Abort(e),
                    }
                }
            },
            Step::Done(None) => Step::Done(all),
            Step::Abort(e) => Step::Abort(e),
            Step::Panic => Step::Panic,
        }
    } else {
        Step::Done(setter_text(name, f.ty.tokens, "Some"@))
    }
}

/// An executable outcome that carries text matches a step.
pub open spec fn text_outcome_matches(res: Outcome<String>, s: Step<Seq<char>>) -> bool {
    match (res, s) {
        (Outcome::Done(t), Step::Done(u)) => t@ == u,
        (Outcome::Abort(e), Step::Abort(f)) => e@ == f,
        (Outcome::Panic, Step::Panic) => true,
        _ => false,
    }
}

/// The name of a field as text; empty where it has none.
fn ident_str(field: &FieldDef) -> (res: &str)
    ensures
        res@ == ident_text(field@),
{
    match &field.ident {
        Some(s) => s.as_str(),
        None => {
            proof {
                reveal_strlit("");
            }
            ""
        },
    }
}

/// The text of [`setter_text`].
fn make_setter(name: &str, ty: &str, some: &str) -> (res: String)
    ensures
        res@ == setter_text(name@, ty@, some@),
{
    let mut s = String::from_str("fn ");
    s.append(name);
    s.append("(&mut self, ");
    s.append(name);
    s.append(": ");
    s.append(ty);
    s.append(") -> &mut Self { self.");
    s.append(name);
    s.append(" = ");
    s.append(some);
    s.append("(");
    s.append(name);
    s.append("); self } ");
    s
}

/// The text of [`each_setter_text`].
fn make_each_setter(each: &str, name: &str, inner: &str) -> (res: String)
    ensures
        res@ == each_setter_text(each@, name@, inner@),
{
    let mut s = String::from_str("fn ");
    s.append(each);
    s.append("(&mut self, param: ");
    s.append(inner);
    s.append(") -> &mut Self { if let Some(temp_v) = &mut self.");
    s.append(name);
    s.append(
        " { temp_v.push(param); } else { let mut new_v = std::vec::Vec::new(); new_v.push(param); self.",
    );
    s.append(name);
    s.append(" = std::option::Option::Some(new_v); } self } ");
    s
}

/// The setters of one field, as [`field_setter`] states them.
pub fn add_setter(field: &FieldDef) -> (res: Outcome<String>)
    ensures
        text_outcome_matches(res, field_setter(field@)),
{
    let name = ident_str(field);
    if is_optional_field(field) {
        match extract_inner_type_of_field(field) {
            Ok(t) => Outcome::Done(make_setter(name, t.as_str(), "std::option::Option::Some")),
            Err(e) => Outcome::Abort(e),
        }
    } else if is_repeated_field(field) {
        let all = make_setter(name, field.ty.tokens.as_str(), "std::option::Option::Some");
        match literal_from_builder_each_attribute(field) {
            Outcome::Done(Some(lit)) => {
                let each = remove_quotes(lit.as_str());
                if !is_valid_ident(each.as_str()) {
                    return Outcome::Panic;
                }
                match extract_inner_type_of_field(field) {
                    Ok(t) => {
                        let one = make_each_setter(each.as_str(), name, t.as_str());
                        let same = match &field.ident {
                            Some(id) => str_eq(each.as_str(), id.as_str()),
                            None => false,
                        };
                        if same {
                            Outcome::Done(one)
                        } else {
                            let mut both = all;
                            both.append(one.as_str());
                            Outcome::Done(both)
                        }
                    },
                    Err(e) => Outcome::Abort(e),
                }
            },
            Outcome::Done(None) => Outcome::Done(all),
            Outcome::Abort(e) => Outcome::Abort(e),
            Outcome::Panic => Outcome::Panic,
        }
    } else {
        Outcome::Done(make_setter(name, field.ty.tokens.as_str(), "Some"))
    }
}

/// The setters of the fields in order, up to the first field whose setters
/// cannot be generated.
pub open spec fn setters(fs: Seq<SpecFieldDef>) -> Step<Seq<char>>
    decreases fs.len(),
{
    if fs.len() == 0 {
        Step::Done(Seq::empty())
    } else {
        match setters(fs.drop_last()) {
            Step::Done(t) => match field_setter(fs.last()) {
                Step::Done(u) => Step::Done(t + u),
                Step::Abort(e) => Step::Abort(e),
                Step::Panic => Step::Panic,
            },
            Step::Abort(e) => Step::Abort(e),
            Step::Panic => Step::Panic,
        }
    }
}

/// Once a field's setters fail, the later fields change nothing.
pub proof fn lemma_setters_stop(fs: Seq<SpecFieldDef>, k: int)
    requires
        0 <= k <= fs.len(),
        !(setters(fs.take(k)) is Done),
    ensures
        setters(fs) == setters(fs.take(k)),
    decreases fs.len(),
{
    if k == fs.len() {
        assert(fs.take(k) =~= fs);
    } else {
        assert(fs.drop_last().take(k) =~= fs.take(k));
        lemma_setters_stop(fs.drop_last(), k);
    }
}

// ----------------------------------------------------------------------
// The builder's fields, defaults, assignments and the whole text

/// The builder's field for a struct field: an optional field keeps its
/// type, any other is wrapped in an `Option`.
pub open spec fn field_decl(f: SpecFieldDef) -> Seq<char> {
    if is_optional(f) {
        ident_text(f) + ": "@ + f.ty.tokens + ", "@
    } else {
        ident_text(f) + ": std::option::Option<"@ + f.ty.tokens + ">, "@
    }
}

/// The builder's fields, in order.
pub open spec fn decls(fs: Seq<SpecFieldDef>) -> Seq<char>
    decreases fs.len(),
{
    if fs.len() == 0 {
        Seq::empty()
    } else {
        decls(fs.drop_last()) + field_decl(fs.last())
    }
}

/// The initial value of a builder field: unset.
pub open spec fn field_default(f: SpecFieldDef) -> Seq<char> {
    ident_text(f) + ": std::option::Option::None, "@
}

/// The initial values of the builder's fields, in order.
pub open spec fn defaults(fs: Seq<SpecFieldDef>) -> Seq<char>
    decreases fs.len(),
{
    if fs.len() == 0 {
        Seq::empty()
    } else {
        defaults(fs.drop_last()) + field_default(fs.last())
    }
}

/// The step of `build` that takes a field's value out of the builder: an
/// optional field is taken as it is; any other must be set, and `build`
/// returns the error "`S` field: `f` not set" where it is not.
pub open spec fn field_assignment(s: Seq<char>, f: SpecFieldDef) -> Seq<char> {
    let name = ident_text(f);
    if is_optional(f) {
        "let "@ + name + " = self."@ + name + ".take(); "@
    } else {
        "let "@ + name + " = if let Some(v) = self."@ + name
            + ".take() { v } else { return Err(\""@ + s + " field: `"@ + name
            + "` not set\".into()); }; "@
    }
}

/// The steps of `build` for the fields, in order.
pub open spec fn assignments(s: Seq<char>, fs: Seq<SpecFieldDef>) -> Seq<char>
    decreases fs.len(),
{
    if fs.len() == 0 {
        Seq::empty()
    } else {
        assignments(s, fs.drop_last()) + field_assignment(s, fs.last())
    }
}

/// Writing the error message of a required field needs its name: a
/// required field without one makes the derive panic.
pub open spec fn assignments_panic(fs: Seq<SpecFieldDef>) -> bool {
    exists|i: int| 0 <= i < fs.len() && !is_optional(#[trigger] fs[i]) && fs[i].ident is None
}

/// The field names separated by commas.
pub open spec fn names(fs: Seq<SpecFieldDef>) -> Seq<char>
    decreases fs.len(),
{
    if fs.len() == 0 {
        Seq::empty()
    } else if fs.len() == 1 {
        ident_text(fs[0])
    } else {
        names(fs.drop_last()) + ", "@ + ident_text(fs.last())
    }
}

/// The builder's source text for the struct named `s`, whose builder is
/// named `b`, with fields `fs`, given the text of its setters: the builder
/// struct, the `builder()` constructor of the struct, the setters and
/// `build`.
pub open spec fn builder_text(
    s: Seq<char>,
    b: Seq<char>,
    fs: Seq<SpecFieldDef>,
    setter_text: Seq<char>,
) -> Seq<char> {
    "#[derive(Debug)] #[allow(unused)] pub struct "@ + b + " { "@ + decls(fs) + "} impl "@ + s
        + " { pub fn builder() -> "@ + b + " { "@ + b + " { "@ + defaults(fs) + "} } } impl "@ + b
        + " { "@ + setter_text
        + "fn build(&mut self) -> std::result::Result<"@ + s
        + ", std::boxed::Box<dyn std::error::Error>> { "@ + assignments(s, fs) + "Ok("@ + s + " { "@
        + names(fs) + " }) } }"@
}

/// What generating the builder of a struct model comes to: the builder's
/// text where every field's setters can be generated and every required
/// field has a name; otherwise the first field's error or panic.
pub open spec fn spec_generate(m: SpecStructModel) -> Step<Seq<char>> {
    match setters(m.named_fields) {
        Step::Done(t) => if assignments_panic(m.named_fields) {
            Step::Panic
        } else {
            Step::Done(builder_text(m.struct_ident, m.builder_ident, m.named_fields, t))
        },
        Step::Abort(e) => Step::Abort(e),
        Step::Panic => Step::Panic,
    }
}

/// The setters of the fields, as [`setters`] states them.
fn all_setters(fields: &Vec<FieldDef>) -> (res: Outcome<String>)
    ensures
        text_outcome_matches(res, setters(fields_view(fields@))),
{
    let ghost fs = fields_view(fields@);
    let mut out = String::new();
    assert(fs.take(0) =~= Seq::<SpecFieldDef>::empty());
    for i in 0..fields.len()
        invariant
            fs == fields_view(fields@),
            setters(fs.take(i as int)) == Step::Done(out@),
    {
        assert(fs.take(i + 1).drop_last() =~= fs.take(i as int));
        assert(fs.take(i + 1).last() == fields@[i as int]@);
        match add_setter(&fields[i]) {
            Outcome::Done(t) => {
                out.append(t.as_str());
            },
            Outcome::Abort(e) => {
                proof { lemma_setters_stop(fs, i + 1); }
                return Outcome::Abort(e);
            },
            Outcome::Panic => {
                proof { lemma_setters_stop(fs, i + 1); }
                return Outcome::Panic;
            },
        }
    }
    assert(fs.take(fields.len() as int) =~= fs);
    Outcome::Done(out)
}

/// The builder's fields, as [`decls`] states them.
fn all_decls(fields: &Vec<FieldDef>) -> (res: String)
    ensures
        res@ == decls(fields_view(fields@)),
{
    let ghost fs = fields_view(fields@);
    let mut out = String::new();
    assert(fs.take(0) =~= Seq::<SpecFieldDef>::empty());
    for i in 0..fields.len()
        invariant
            fs == fields_view(fields@),
            out@ == decls(fs.take(i as int)),
    {
        assert(fs.take(i + 1).drop_last() =~= fs.take(i as int));
        let field = &fields[i];
        let name = ident_str(field);
        out.append(name);
        if is_optional_field(field) {
            out.append(": ");
            out.append(field.ty.tokens.as_str());
            out.append(", ");
        } else {
            out.append(": std::option::Option<");
            out.append(field.ty.tokens.as_str());
            out.append(">, ");
        }
        assert(out@ =~= decls(fs.take(i + 1)));
    }
    assert(fs.take(fields.len() as int) =~= fs);
    out
}

/// The initial values of the builder's fields, as [`defaults`] states them.
fn all_defaults(fields: &Vec<FieldDef>) -> (res: String)
    ensures
        res@ == defaults(fields_view(fields@)),
{
    let ghost fs = fields_view(fields@);
    let mut out = String::new();
    assert(fs.take(0) =~= Seq::<SpecFieldDef>::empty());
    for i in 0..fields.len()
        invariant
            fs == fields_view(fields@),
            out@ == defaults(fs.take(i as int)),
    {
        assert(fs.take(i + 1).drop_last() =~= fs.take(i as int));
        out.append(ident_str(&fields[i]));
        out.append(": std::option::Option::None, ");
        assert(out@ =~= defaults(fs.take(i + 1)));
    }
    assert(fs.take(fields.len() as int) =~= fs);
    out
}

/// The steps of `build`, as [`assignments`] states them; none where a
/// required field has no name, as [`assignments_panic`] states it.
fn all_assignments(struct_ident: &str, fields: &Vec<FieldDef>) -> (res: Option<String>)
    ensures
        match res {
            Some(t) => !assignments_panic(fields_view(fields@))
                && t@ == assignments(struct_ident@, fields_view(fields@)),
            None => assignments_panic(fields_view(fields@)),
        },
{
    let ghost fs = fields_view(fields@);
    let mut out = String::new();
    assert(fs.take(0) =~= Seq::<SpecFieldDef>::empty());
    for i in 0..fields.len()
        invariant
            fs == fields_view(fields@),
            out@ == assignments(struct_ident@, fs.take(i as int)),
            forall|j: int| 0 <= j < i ==> !(!is_optional(#[trigger] fs[j]) && fs[j].ident is None),
    {
        assert(fs.take(i + 1).drop_last() =~= fs.take(i as int));
        let field = &fields[i];
        let name = ident_str(field);
        if is_optional_field(field) {
            out.append("let ");
            out.append(name);
            out.append(" = self.");
            out.append(name);
            out.append(".take(); ");
        } else {
            if field.ident.is_none() {
                assert(!is_optional(fs[i as int]) && fs[i as int].ident is None);
                return None;
            }
            out.append("let ");
            out.append(name);
            out.append(" = if let Some(v) = self.");
            out.append(name);
            out.append(".take() { v } else { return Err(\"");
            out.append(struct_ident);
            out.append(" field: `");
            out.append(name);
            out.append("` not set\".into()); }; ");
        }
        assert(out@ =~= assignments(struct_ident@, fs.take(i + 1)));
    }
    assert(fs.take(fields.len() as int) =~= fs);
    Some(out)
}

/// The field names separated by commas, as [`names`] states them.
fn all_names(fields: &Vec<FieldDef>) -> (res: String)
    ensures
        res@ == names(fields_view(fields@)),
{
    let ghost fs = fields_view(fields@);
    let mut out = String::new();
    assert(fs.take(0) =~= Seq::<SpecFieldDef>::empty());
    for i in 0..fields.len()
        invariant
            fs == fields_view(fields@),
            out@ == names(fs.take(i as int)),
    {
        assert(fs.take(i + 1).drop_last() =~= fs.take(i as int));
        if i > 0 {
            out.append(", ");
        }
        out.append(ident_str(&fields[i]));
        assert(out@ =~= names(fs.take(i + 1)));
    }
    assert(fs.take(fields.len() as int) =~= fs);
    out
}

/// The builder's text for a struct model, or the error or panic that stops
/// the derive, as [`spec_generate`] states it.
fn generate_outcome(model: &StructModel) -> (res: Outcome<String>)
    ensures
        text_outcome_matches(res, spec_generate(model@)),
{
    let s = model.struct_ident.as_str();
    let setter_text = match all_setters(&model.named_fields) {
        Outcome::Done(t) => t,
        Outcome::Abort(e) => {
            return Outcome::Abort(e);
        },
        Outcome::Panic => {
            return Outcome::Panic;
        },
    };
    let assignment_text = match all_assignments(s, &model.named_fields) {
        Some(t) => t,
        None => {
            return Outcome::Panic;
        },
    };
    let b = model.builder_ident.as_str();
    let mut out = String::from_str("#[derive(Debug)] #[allow(unused)] pub struct ");
    out.append(b);
    out.append(" { ");
    out.append(all_decls(&model.named_fields).as_str());
    out.append("} impl ");
    out.append(s);
    out.append(" { pub fn builder() -> ");
    out.append(b);
    out.append(" { ");
    out.append(b);
    out.append(" { ");
    out.append(all_defaults(&model.named_fields).as_str());
    out.append("} } } impl ");
    out.append(b);
    out.append(" { ");
    out.append(setter_text.as_str());
    out.append("fn build(&mut self) -> std::result::Result<");
    out.append(s);
    out.append(", std::boxed::Box<dyn std::error::Error>> { ");
    out.append(assignment_text.as_str());
    out.append("Ok(");
    out.append(s);
    out.append(" { ");
    out.append(all_names(&model.named_fields).as_str());
    out.append(" }) } }");
    Outcome::Done(out)
}

/// Whether generating the builder of the model makes the derive panic, as
/// [`spec_generate`] states it: a `builder` attribute of a repeated field
/// has a punctuation mark other than `=` before any identifier, or names a
/// setter that is not an identifier, or a required field has no name.
pub fn generate_panics(model: &StructModel) -> (res: bool)
    ensures
        res == (spec_generate(model@) is Panic),
{
    match generate_outcome(model) {
        Outcome::Panic => true,
        _ => false,
    }
}

/// Generates the source text of the builder of a struct model.
///
/// The text declares a struct named by the model's builder name, whose
/// fields are the struct's fields left unset; a
/// `builder()` constructor on the struct; a setter (or two) for each field;
/// and `build`, which returns the struct where every required field is set
/// and an error naming the first unset field otherwise. Where a field's
/// setters cannot be generated, the result is the error for the first such
/// field, with the place in the input where the derive reports it. The
/// model must not make the derive panic ([`generate_panics`]).
pub fn generate(struct_model: &StructModel) -> (res: Result<String, Diagnostic>)
    requires
        !(spec_generate(struct_model@) is Panic),
    ensures
        match (res, spec_generate(struct_model@)) {
            (Ok(t), Step::Done(u)) => t@ == u,
            (Err(e), Step::Abort(f)) => e@ == f,
            _ => false,
        },
{
    match generate_outcome(struct_model) {
        Outcome::Done(t) => Ok(t),
        Outcome::Abort(e) => Err(e),
        Outcome::Panic => {
            proof {
                assert(false);
            }
            Err(Diagnostic { error: GenerateError::NoType, location: Location::CallSite })
        },
    }
}

// ----------------------------------------------------------------------
// Error messages

/// The message that the derive reports for an error.
pub open spec fn error_message(e: SpecGenerateError) -> Seq<char> {
    match e {
        SpecGenerateError::NoType => "No type"@,
        SpecGenerateError::NoSegments => "No segments"@,
        SpecGenerateError::NoSegmentArguments => "No segment arguments"@,
        SpecGenerateError::NoGenericArgument => "No GenericArgument, found []"@,
        SpecGenerateError::NoPathSegmentsOnArgument { argument } =>
            "No path sgements on argument: "@ + argument,
        SpecGenerateError::UnexpectedArgument { argument } =>
            "Expecting GenericArgument found "@ + argument,
        SpecGenerateError::UnexpectedGroup { group } =>
            "Not expecting group `"@ + group + "` in attribute(builder, each = \"xxx\")"@,
        SpecGenerateError::ExpectedEach => "expected `builder(each = \"...\")`"@,
        SpecGenerateError::ExpectedEquals { ident, punct } =>
            "Expecting '=' after "@ + ident + " = found '"@ + seq![punct] + "' "@,
        SpecGenerateError::MissingLiteral =>
            "Expecting a literal, such as `xxx` in attribute(builder, each = \"xxx\""@,
        SpecGenerateError::GroupParse { message } => "Group Err: "@ + message,
        SpecGenerateError::PathSegmentCount { count } =>
            "Expecting one attribute(builder, each = \"xxx\"), there are "@ + decimal(count)
                + " `builder` attributes"@,
        SpecGenerateError::AttributeCount { count } =>
            "Only one attribute(builder, each = \"xxx\") there are "@ + decimal(count),
    }
}

impl GenerateError {
    /// The message that the derive reports for this error, as
    /// [`error_message`] states it.
    pub fn message(&self) -> (res: String)
        ensures
            res@ == error_message(self@),
    {
        match self {
            GenerateError::NoType => String::from_str("No type"),
            GenerateError::NoSegments => String::from_str("No segments"),
            GenerateError::NoSegmentArguments => String::from_str("No segment arguments"),
            GenerateError::NoGenericArgument => String::from_str("No GenericArgument, found []"),
            GenerateError::NoPathSegmentsOnArgument { argument } => {
                let mut s = String::from_str("No path sgements on argument: ");
                s.append(argument.as_str());
                s
            },
            GenerateError::UnexpectedArgument { argument } => {
                let mut s = String::from_str("Expecting GenericArgument found ");
                s.append(argument.as_str());
                s
            },
            GenerateError::UnexpectedGroup { group } => {
                let mut s = String::from_str("Not expecting group `");
                s.append(group.as_str());
                s.append("` in attribute(builder, each = \"xxx\")");
                s
            },
            GenerateError::ExpectedEach => String::from_str("expected `builder(each = \"...\")`"),
            GenerateError::ExpectedEquals { ident, punct } => {
                let mut s = String::from_str("Expecting '=' after ");
                s.append(ident.as_str());
                s.append(" = found '");
                let ghost before = s@;
                push_char(&mut s, *punct);
                assert(s@ =~= before + seq![*punct]);
                s.append("' ");
                s
            },
            GenerateError::MissingLiteral => String::from_str(
                "Expecting a literal, such as `xxx` in attribute(builder, each = \"xxx\"",
            ),
            GenerateError::GroupParse { message } => {
                let mut s = String::from_str("Group Err: ");
                s.append(message.as_str());
                s
            },
            GenerateError::PathSegmentCount { count } => {
                let mut s = String::from_str(
                    "Expecting one attribute(builder, each = \"xxx\"), there are ",
                );
                append_decimal(&mut s, *count);
                s.append(" `builder` attributes");
                s
            },
            GenerateError::AttributeCount { count } => {
                let mut s = String::from_str("Only one attribute(builder, each = \"xxx\") there are ");
                append_decimal(&mut s, *count);
                s
            },
        }
    }
}

// ----------------------------------------------------------------------
// Laws

/// A field that nothing can stop: it has a name and no attribute, and where
/// it is an `Option` its inner type can be read.
pub open spec fn plain_field(f: SpecFieldDef) -> bool {
    &&& f.ident is Some
    &&& f.attrs.len() == 0
    &&& is_optional(f) ==> inner_type_of_field(f) is Ok
}

proof fn lemma_plain_setters(fs: Seq<SpecFieldDef>)
    requires
        forall|i: int| 0 <= i < fs.len() ==> plain_field(#[trigger] fs[i]),
    ensures
        setters(fs) is Done,
    decreases fs.len(),
{
    if fs.len() > 0 {
        lemma_plain_setters(fs.drop_last());
        assert(plain_field(fs[fs.len() - 1]));
    }
}

/// The builder of every struct whose fields are plain (named, without
/// attributes, and with a readable inner type where they are `Option`s)
/// is generated without error.
pub proof fn law_plain_fields_generate(m: SpecStructModel)
    requires
        forall|i: int| 0 <= i < m.named_fields.len() ==> plain_field(#[trigger] m.named_fields[i]),
    ensures
        spec_generate(m) is Done,
{
    lemma_plain_setters(m.named_fields);
    assert(!assignments_panic(m.named_fields));
}


/// The head of a setter named `each` that takes one item of type `inner`.
pub open spec fn item_setter_head(each: Seq<char>, inner: Seq<char>) -> Seq<char> {
    "fn "@ + each + "(&mut self, param: "@ + inner + ") -> &mut Self { "@
}

/// Where the builder field `name` already holds a vector, the item is
/// pushed at its end.
pub open spec fn push_onto_set_field(name: Seq<char>) -> Seq<char> {
    "if let Some(temp_v) = &mut self."@ + name + " { temp_v.push(param); } "@
}

/// Where the builder field `name` is unset, it is set to a new vector that
/// holds the item alone.
pub open spec fn start_unset_field(name: Seq<char>) -> Seq<char> {
    "else { let mut new_v = std::vec::Vec::new(); new_v.push(param); self."@ + name
        + " = std::option::Option::Some(new_v); } "@
}

/// The setter `each` for one item of the vector in the builder field
/// `name`: it pushes the item at the end of the vector where the field is
/// set, sets the field to a vector of the item where it is unset, and
/// returns the builder. Called with `x1`, ..., `xn` on an unset field, it
/// leaves the field set to the vector `[x1, ..., xn]`.
pub open spec fn one_item_setter(each: Seq<char>, name: Seq<char>, inner: Seq<char>) -> Seq<char> {
    item_setter_head(each, inner) + push_onto_set_field(name) + start_unset_field(name)
        + "self } "@
}

/// The setter `name` for the whole vector: it sets the builder field
/// `name` to its argument, of type `ty`, and returns the builder.
pub open spec fn whole_vector_setter(name: Seq<char>, ty: Seq<char>) -> Seq<char> {
    "fn "@ + name + "(&mut self, "@ + name + ": "@ + ty + ") -> &mut Self { self."@ + name
        + " = std::option::Option::Some("@ + name + "); self } "@
}

proof fn lemma_setter_texts(each: Seq<char>, name: Seq<char>, inner: Seq<char>, ty: Seq<char>)
    ensures
        each_setter_text(each, name, inner) == one_item_setter(each, name, inner),
        setter_text(name, ty, option_some()) == whole_vector_setter(name, ty),
{
    reveal_strlit("fn ");
    reveal_strlit("(&mut self, param: ");
    reveal_strlit(") -> &mut Self { if let Some(temp_v) = &mut self.");
    reveal_strlit(
        " { temp_v.push(param); } else { let mut new_v = std::vec::Vec::new(); new_v.push(param); self.",
    );
    reveal_strlit(" = std::option::Option::Some(new_v); } self } ");
    reveal_strlit(") -> &mut Self { ");
    reveal_strlit("if let Some(temp_v) = &mut self.");
    reveal_strlit(" { temp_v.push(param); } ");
    reveal_strlit("else { let mut new_v = std::vec::Vec::new(); new_v.push(param); self.");
    reveal_strlit(" = std::option::Option::Some(new_v); } ");
    reveal_strlit("self } ");
    assert(each_setter_text(each, name, inner) =~= one_item_setter(each, name, inner));
    reveal_strlit("(&mut self, ");
    reveal_strlit(": ");
    reveal_strlit(") -> &mut Self { self.");
    reveal_strlit(" = ");
    reveal_strlit("std::option::Option::Some");
    reveal_strlit("(");
    reveal_strlit("); self } ");
    reveal_strlit(" = std::option::Option::Some(");
    assert(setter_text(name, ty, option_some()) =~= whole_vector_setter(name, ty));
}

proof fn lemma_repeated_not_optional(f: SpecFieldDef)
    requires
        is_repeated(f),
    ensures
        !is_optional(f),
{
    reveal_strlit("Vec");
    reveal_strlit("Option");
    assert("Vec"@.len() != "Option"@.len());
}

/// The setters of a `Vec` field marked `builder(each = "e")`, where `e` is
/// an identifier: the one-item setter `e` alone where `e` is the field's
/// own name; otherwise the setter of the whole vector, then the one-item
/// setter `e`.
pub proof fn law_repeated_field_setters(f: SpecFieldDef, lit: Seq<char>, inner: Seq<char>)
    requires
        is_repeated(f),
        each_literal(f) == Step::Done(Some(lit)),
        valid_ident(strip_quotes(lit)),
        inner_type_of_field(f) == Ok::<Seq<char>, SpecDiagnostic>(inner),
    ensures
        f.ident == Some(strip_quotes(lit)) ==> field_setter(f) == Step::Done(
            one_item_setter(strip_quotes(lit), ident_text(f), inner),
        ),
        f.ident != Some(strip_quotes(lit)) ==> field_setter(f) == Step::Done(
            whole_vector_setter(ident_text(f), f.ty.tokens) + one_item_setter(
                strip_quotes(lit),
                ident_text(f),
                inner,
            ),
        ),
{
    lemma_repeated_not_optional(f);
    lemma_setter_texts(strip_quotes(lit), ident_text(f), inner, f.ty.tokens);
}

/// The setters that [`setters`] gathers hold the setters of each field.
proof fn lemma_setters_contain(fs: Seq<SpecFieldDef>, i: int)
    requires
        setters(fs) is Done,
        0 <= i < fs.len(),
    ensures
        field_setter(fs[i]) is Done,
        setters(fs) matches Step::Done(s) && field_setter(fs[i]) matches Step::Done(u)
            && contains_text(s, u),
    decreases fs.len(),
{
    let t = setters(fs.drop_last());
    let last = field_setter(fs.last());
    if let (Step::Done(t), Step::Done(u)) = (t, last) {
        if i == fs.len() - 1 {
            lemma_contains_middle(t, u, Seq::empty());
            assert(t + u + Seq::empty() =~= t + u);
        } else {
            lemma_setters_contain(fs.drop_last(), i);
            assert(fs.drop_last()[i] == fs[i]);
            let v = field_setter(fs[i])->Done_0;
            lemma_contains_extend(Seq::empty(), t, u, v);
            assert(Seq::empty() + t + u =~= t + u);
        }
    }
}

/// The builder's text holds the text of the setters it was written with.
proof fn lemma_builder_holds_setters(s: Seq<char>, b: Seq<char>, fs: Seq<SpecFieldDef>, st: Seq<char>)
    ensures
        contains_text(builder_text(s, b, fs, st), st),
{
    let pre = "#[derive(Debug)] #[allow(unused)] pub struct "@ + b + " { "@ + decls(fs) + "} impl "@
        + s + " { pub fn builder() -> "@ + b + " { "@ + b + " { "@ + defaults(fs) + "} } } impl "@
        + b + " { "@;
    let post = "fn build(&mut self) -> std::result::Result<"@ + s
        + ", std::boxed::Box<dyn std::error::Error>> { "@ + assignments(s, fs) + "Ok("@ + s
        + " { "@ + names(fs) + " }) } }"@;
    assert(builder_text(s, b, fs, st) =~= pre + st + post);
    lemma_contains_middle(pre, st, post);
}

/// The builder generated for a struct holds the setters of each field.
proof fn lemma_generated_holds_field_setters(m: SpecStructModel, i: int)
    requires
        spec_generate(m) is Done,
        0 <= i < m.named_fields.len(),
    ensures
        field_setter(m.named_fields[i]) is Done,
        contains_text(spec_generate(m)->Done_0, field_setter(m.named_fields[i])->Done_0),
{
    let fs = m.named_fields;
    lemma_setters_contain(fs, i);
    let st = setters(fs)->Done_0;
    lemma_builder_holds_setters(m.struct_ident, m.builder_ident, fs, st);
    lemma_contains_trans(spec_generate(m)->Done_0, st, field_setter(fs[i])->Done_0);
}

/// The one-item setter holds its two branches.
proof fn lemma_one_item_setter_parts(each: Seq<char>, name: Seq<char>, inner: Seq<char>)
    ensures
        contains_text(one_item_setter(each, name, inner), push_onto_set_field(name)),
        contains_text(one_item_setter(each, name, inner), start_unset_field(name)),
{
    let head = item_setter_head(each, inner);
    let push = push_onto_set_field(name);
    let start = start_unset_field(name);
    let tail = "self } "@;
    lemma_contains_middle(head, push, start + tail);
    assert(head + push + (start + tail) =~= one_item_setter(each, name, inner));
    lemma_contains_middle(head + push, start, tail);
}

/// In the builder generated for a struct, a `Vec` field marked
/// `builder(each = "e")` gets the one-item setter `e`, which pushes its
/// argument at the end of the vector that the builder holds for the field
/// or, where the field is unset, sets it to a vector of the argument alone;
/// and where `e` is not the field's name, the setter of the whole vector
/// too.
pub proof fn law_generated_repeated_setters(
    m: SpecStructModel,
    i: int,
    lit: Seq<char>,
    inner: Seq<char>,
)
    requires
        spec_generate(m) is Done,
        0 <= i < m.named_fields.len(),
        is_repeated(m.named_fields[i]),
        each_literal(m.named_fields[i]) == Step::Done(Some(lit)),
        inner_type_of_field(m.named_fields[i]) == Ok::<Seq<char>, SpecDiagnostic>(inner),
    ensures
        contains_text(
            spec_generate(m)->Done_0,
            one_item_setter(strip_quotes(lit), ident_text(m.named_fields[i]), inner),
        ),
        contains_text(spec_generate(m)->Done_0, push_onto_set_field(ident_text(m.named_fields[i]))),
        contains_text(spec_generate(m)->Done_0, start_unset_field(ident_text(m.named_fields[i]))),
        m.named_fields[i].ident != Some(strip_quotes(lit)) ==> contains_text(
            spec_generate(m)->Done_0,
            whole_vector_setter(ident_text(m.named_fields[i]), m.named_fields[i].ty.tokens),
        ),
{
    let f = m.named_fields[i];
    let each = strip_quotes(lit);
    let name = ident_text(f);
    let text = spec_generate(m)->Done_0;
    lemma_generated_holds_field_setters(m, i);
    assert(valid_ident(each)) by {
        lemma_repeated_not_optional(f);
    }
    law_repeated_field_setters(f, lit, inner);
    let u = field_setter(f)->Done_0;
    let one = one_item_setter(each, name, inner);
    if f.ident == Some(each) {
        assert(contains_text(text, one));
    } else {
        let whole = whole_vector_setter(name, f.ty.tokens);
        assert(u == whole + one);
        assert(contains_text(u, one)) by {
            lemma_contains_middle(whole, one, Seq::empty());
            assert(whole + one + Seq::empty() =~= u);
        }
        assert(contains_text(u, whole)) by {
            lemma_contains_middle(Seq::empty(), whole, one);
            assert(Seq::empty() + whole + one =~= u);
        }
        lemma_contains_trans(text, u, one);
        lemma_contains_trans(text, u, whole);
    }
    lemma_one_item_setter_parts(each, name, inner);
    lemma_contains_trans(text, one, push_onto_set_field(name));
    lemma_contains_trans(text, one, start_unset_field(name));
}

/// A `Vec` field whose `builder(each = "e")` names its setter as
/// `snake_case` names are written (`env_var`, `arg2`: ASCII letters,
/// digits and `_`, not beginning with a digit) gets its setters: such a
/// name never makes the derive panic.
pub proof fn law_snake_case_each_names(f: SpecFieldDef, lit: Seq<char>, inner: Seq<char>)
    requires
        is_repeated(f),
        each_literal(f) == Step::Done(Some(lit)),
        ascii_ident(strip_quotes(lit)),
        inner_type_of_field(f) == Ok::<Seq<char>, SpecDiagnostic>(inner),
    ensures
        field_setter(f) is Done,
{
    let each = strip_quotes(lit);
    assert forall|k: int| 0 <= k < each.len() implies crate::text::is_ascii_char(#[trigger] each[k]) by {
        if k > 0 {
            assert(crate::text::ascii_letter(each[k]) || crate::text::ascii_digit(each[k]) || each[k] == '_');
        }
    }
    law_ascii_identifiers(each);
    law_repeated_field_setters(f, lit, inner);
}


/// A field that nothing can stop: a plain field, or a named `Vec` field
/// whose `builder(each = "e")` names its one-item setter as `snake_case`
/// names are written, and whose item type can be read.
pub open spec fn simple_field(f: SpecFieldDef) -> bool {
    ||| plain_field(f)
    ||| {
        &&& f.ident is Some
        &&& is_repeated(f)
        &&& inner_type_of_field(f) is Ok
        &&& each_literal(f) matches Step::Done(Some(lit))
        &&& ascii_ident(strip_quotes(lit))
    }
}

proof fn lemma_simple_setters(fs: Seq<SpecFieldDef>)
    requires
        forall|i: int| 0 <= i < fs.len() ==> simple_field(#[trigger] fs[i]),
    ensures
        setters(fs) is Done,
    decreases fs.len(),
{
    if fs.len() > 0 {
        lemma_simple_setters(fs.drop_last());
        let f = fs[fs.len() - 1];
        assert(simple_field(f));
        if !plain_field(f) {
            let lit = each_literal(f)->Done_0->Some_0;
            law_snake_case_each_names(f, lit, inner_type_of_field(f)->Ok_0);
        }
    }
}

/// The builder of every struct whose fields are plain or are `Vec` fields
/// with `snake_case` one-item setter names (as `#[builder(each =
/// "env_var")] env_vars: Vec<String>`) is generated without error or panic.
pub proof fn law_simple_fields_generate(m: SpecStructModel)
    requires
        forall|i: int| 0 <= i < m.named_fields.len() ==> simple_field(#[trigger] m.named_fields[i]),
    ensures
        spec_generate(m) is Done,
{
    lemma_simple_setters(m.named_fields);
    assert(!assignments_panic(m.named_fields));
}

} // verus!
