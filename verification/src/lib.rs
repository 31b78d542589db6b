//! A source-to-source generator for record builders.
//!
//! Given the structural description of a record type — its fields, their
//! declared types, and per-field annotations — the pipeline produces the
//! declarations of a companion builder type: storage, setters (including an
//! element-wise accumulator setter when requested), and a validating
//! assembly method.

use vstd::prelude::*;

pub mod analyze;
pub mod ast;
pub mod codegen;
pub mod lower;
pub mod semantics;

use crate::analyze::analyze;
use crate::ast::{named_fields, Ast};
use crate::codegen::{all_setters, build_step_matches, codegen, init_of, storage_of, Rust};
use crate::lower::{lower, lower_field};

verus! {

/// Runs the whole pipeline on one record description: analyze the fields,
/// classify each one, and emit the builder's declarations. A description
/// without named fields yields a trivial builder with no setters, never an
/// error.
pub fn derive(input: Ast) -> (r: Rust)
    ensures
        r.target == input.ident,
        r.builder@ == input.ident@ + "Builder"@,
        r.fields@ == named_fields(input).map_values(
            |f: ast::Field| storage_of(lower_field(f)),
        ),
        r.init@ == named_fields(input).map_values(|f: ast::Field| init_of(lower_field(f))),
        r.setters@ == all_setters(named_fields(input).map_values(|f: ast::Field| lower_field(f))),
        r.build@.len() == named_fields(input).len(),
        forall|i: int|
            0 <= i < named_fields(input).len() ==> build_step_matches(
                lower_field(named_fields(input)[i]),
                #[trigger] r.build@[i],
            ),
{
    let ghost input0 = input;
    let model = analyze(input);
    let ir = lower(model);
    let r = codegen(ir);
    proof {
        let lowered = named_fields(input0).map_values(|f: ast::Field| lower_field(f));
        assert(ir.fields@ == lowered);
        assert(r.fields@ =~= named_fields(input0).map_values(
            |f: ast::Field| storage_of(lower_field(f)),
        ));
        assert(r.init@ =~= named_fields(input0).map_values(
            |f: ast::Field| init_of(lower_field(f)),
        ));
    }
    r
}

} // verus!
