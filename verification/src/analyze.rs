//! Field analyzer: extracts the ordered named-field list from a record
//! description and derives the builder type's name.

use vstd::prelude::*;

use crate::ast::{named_fields, Ast, DataShape, Field, FieldsShape};
use vstd::string::StringExecFns;

verus! {

/// Output of the analyzer: the target type's name, the derived builder
/// type's name, and the ordered named fields (empty when the record has
/// none).
#[derive(Debug, PartialEq)]
pub struct Model {
    pub target: String,
    pub builder: String,
    pub fields: Vec<Field>,
}

/// Extracts the named fields of `ast` and derives the builder's name by
/// suffixing the target's name with `Builder`. A description without named
/// fields yields an empty field list, never an error.
pub fn analyze(ast: Ast) -> (m: Model)
    ensures
        m.target == ast.ident,
        m.builder@ == ast.ident@ + "Builder"@,
        m.fields@ == named_fields(ast),
{
    let ghost ast0 = ast;
    let Ast { ident, data } = ast;
    let target = ident;
    let builder = target.clone().concat("Builder");

    let parsed: Vec<Field> = match data {
        DataShape::Struct(FieldsShape::Named(fs)) => fs,
        _ => Vec::new(),
    };
    proof {
        assert(parsed@ =~= named_fields(ast0));
    }
    Model { target, builder, fields: parsed }
}

} // verus!
