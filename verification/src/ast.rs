//! Structural description of a record type: the input to the pipeline.
//!
//! A record description is supplied by an external parsing collaborator; it
//! carries the record's name and, when the record has named fields, one
//! [`Field`] per field with its declared type (a path-based structural
//! descriptor), its annotations, its visibility and its source location.

use vstd::prelude::*;

verus! {

/// Generic arguments attached to one path segment of a declared type.
#[derive(Debug, PartialEq)]
pub enum PathArgs {
    /// No generic arguments at all.
    Empty,
    /// Angle-bracketed arguments, e.g. the `<String>` of `Option<String>`.
    AngleBracketed(Vec<GenArg>),
    /// Parenthesized arguments, as in function types.
    Parenthesized,
}

/// One generic argument: a type, or any other kind (lifetime, const, binding).
#[derive(Debug, PartialEq)]
pub enum GenArg {
    Type(Ty),
    Other,
}

/// One segment of a type path: an identifier plus its generic arguments.
#[derive(Debug, PartialEq)]
pub struct PathSeg {
    pub ident: String,
    pub args: PathArgs,
}

/// A declared type, as a purely structural descriptor.
#[derive(Debug, PartialEq)]
pub enum Ty {
    /// A path type such as `Option<String>` or `std::option::Option<T>`.
    /// `qself` records whether the path has a qualified-self prefix.
    Path { qself: bool, segments: Vec<PathSeg> },
    /// Any non-path shape (references, tuples, slices, ...).
    Other,
}

/// A literal value appearing inside an annotation.
#[derive(Debug, PartialEq)]
pub enum Lit {
    Str(String),
    Other,
}

/// One entry nested inside an annotation list.
#[derive(Debug, PartialEq)]
pub enum Nested {
    /// A `key = literal` entry; `path` holds the key's segment names.
    NameValue { path: Vec<String>, lit: Lit },
    /// Any other nested shape.
    Other,
}

/// The parsed contents of one annotation.
#[derive(Debug, PartialEq)]
pub enum Meta {
    /// A parenthesized list of nested entries, e.g. `builder(each = "arg")`.
    List(Vec<Nested>),
    /// Any other or unparsable shape.
    Other,
}

/// One per-field annotation: its namespace path and its parsed contents.
#[derive(Debug, PartialEq)]
pub struct Attr {
    pub path: Vec<String>,
    pub meta: Meta,
}

/// Declared visibility of a field.
#[derive(Debug, PartialEq)]
pub enum Vis {
    Public,
    Inherited,
}

/// Source location of a field, kept for diagnostics.
#[derive(Debug, PartialEq)]
pub struct Span {
    pub line: usize,
    pub column: usize,
}

/// One named field of the record description.
#[derive(Debug, PartialEq)]
pub struct Field {
    pub name: String,
    pub ty: Ty,
    pub attrs: Vec<Attr>,
    pub vis: Vis,
    pub span: Span,
}

/// The shape of a record's field list.
#[derive(Debug, PartialEq)]
pub enum FieldsShape {
    Named(Vec<Field>),
    Unnamed,
    Unit,
}

/// The shape of the described item's data.
#[derive(Debug, PartialEq)]
pub enum DataShape {
    Struct(FieldsShape),
    Other,
}

/// A record description: the name of the described type and its data shape.
#[derive(Debug, PartialEq)]
pub struct Ast {
    pub ident: String,
    pub data: DataShape,
}

/// The ordered named fields of a record description; empty whenever the
/// description is not a struct with named fields.
pub open spec fn named_fields(ast: Ast) -> Seq<Field> {
    match ast.data {
        DataShape::Struct(FieldsShape::Named(fs)) => fs@,
        _ => Seq::empty(),
    }
}

} // verus!
