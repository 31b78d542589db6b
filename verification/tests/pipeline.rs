use builder::analyze::analyze;
use builder::ast::{Ast, Attr, DataShape, Field, FieldsShape, GenArg, Lit, Meta, Nested, PathArgs,
    PathSeg, Span, Ty, Vis};
use builder::codegen::{codegen, BuildKind, SetterKind};
use builder::lower::lower;

fn seg(name: &str, args: PathArgs) -> PathSeg {
    PathSeg { ident: name.to_string(), args }
}

fn simple_ty(name: &str) -> Ty {
    Ty::Path { qself: false, segments: vec![seg(name, PathArgs::Empty)] }
}

fn wrapped_ty(outer: &str, inner: Ty) -> Ty {
    Ty::Path {
        qself: false,
        segments: vec![seg(outer, PathArgs::AngleBracketed(vec![GenArg::Type(inner)]))],
    }
}

fn qualified_option(head: &str, inner: Ty) -> Ty {
    Ty::Path {
        qself: false,
        segments: vec![
            seg(head, PathArgs::Empty),
            seg("option", PathArgs::Empty),
            seg("Option", PathArgs::AngleBracketed(vec![GenArg::Type(inner)])),
        ],
    }
}

fn field(name: &str, ty: Ty, attrs: Vec<Attr>, vis: Vis) -> Field {
    Field { name: name.to_string(), ty, attrs, vis, span: Span { line: 1, column: 0 } }
}

fn each_attr(alias: &str) -> Attr {
    Attr {
        path: vec!["builder".to_string()],
        meta: Meta::List(vec![Nested::NameValue {
            path: vec!["each".to_string()],
            lit: Lit::Str(alias.to_string()),
        }]),
    }
}

fn record(name: &str, fields: Vec<Field>) -> Ast {
    Ast { ident: name.to_string(), data: DataShape::Struct(FieldsShape::Named(fields)) }
}

fn two_seg_ty() -> Ty {
    Ty::Path {
        qself: false,
        segments: vec![
            seg("option", PathArgs::Empty),
            seg("Option", PathArgs::AngleBracketed(vec![GenArg::Type(simple_ty("String"))])),
        ],
    }
}

#[test]
fn test_parse() {
    let input = record(
        "Target",
        vec![
            field("executable", simple_ty("String"), vec![], Vis::Public),
            field("args", wrapped_ty("Vec", simple_ty("String")), vec![], Vis::Inherited),
            field("cwd", wrapped_ty("Option", simple_ty("String")), vec![], Vis::Inherited),
            field("env", wrapped_ty("Vec", simple_ty("String")), vec![], Vis::Inherited),
        ],
    );

    let model = analyze(input);

    let ir = lower(model);

    assert_eq!(ir.target.to_string(), "Target");
    assert_eq!(ir.builder.to_string(), "TargetBuilder");

    assert_eq!(ir.fields[0].required, true);

    assert_eq!(ir.fields[1].required, true);

    assert_eq!(ir.fields[2].required, false);

    assert_eq!(ir.fields[3].required, true);
}

#[test]
fn storage_has_one_slot_per_field() {
    let input = record(
        "Command",
        vec![
            field("executable", simple_ty("String"), vec![], Vis::Inherited),
            field("args", wrapped_ty("Vec", simple_ty("String")), vec![each_attr("arg")], Vis::Inherited),
            field("env", wrapped_ty("Vec", simple_ty("String")), vec![], Vis::Inherited),
            field("current_dir", wrapped_ty("Option", simple_ty("String")), vec![], Vis::Inherited),
        ],
    );
    let rust = builder::derive(input);
    assert_eq!(rust.target, "Command");
    assert_eq!(rust.builder, "CommandBuilder");
    assert_eq!(rust.fields.len(), 4);
    assert_eq!(rust.init.len(), 4);
    assert_eq!(rust.build.len(), 4);
    assert_eq!(rust.fields[0].name, "executable");
    assert_eq!(rust.fields[1].name, "args");
    assert_eq!(rust.fields[2].name, "env");
    assert_eq!(rust.fields[3].name, "current_dir");
}

#[test]
fn record_without_named_fields_yields_trivial_builder() {
    let unit = Ast { ident: "Unit".to_string(), data: DataShape::Struct(FieldsShape::Unit) };
    let rust = builder::derive(unit);
    assert_eq!(rust.builder, "UnitBuilder");
    assert_eq!(rust.fields.len(), 0);
    assert_eq!(rust.setters.len(), 0);
    assert_eq!(rust.build.len(), 0);

    let tuple = Ast { ident: "Pair".to_string(), data: DataShape::Struct(FieldsShape::Unnamed) };
    assert_eq!(builder::derive(tuple).fields.len(), 0);

    let not_struct = Ast { ident: "Choice".to_string(), data: DataShape::Other };
    assert_eq!(builder::derive(not_struct).fields.len(), 0);
}

#[test]
fn optional_field_unwraps_in_every_canonical_spelling() {
    let input = record(
        "T",
        vec![
            field("a", wrapped_ty("Option", simple_ty("String")), vec![], Vis::Inherited),
            field("b", qualified_option("std", simple_ty("u32")), vec![], Vis::Inherited),
            field("c", qualified_option("core", simple_ty("bool")), vec![], Vis::Inherited),
        ],
    );
    let ir = lower(analyze(input));
    assert_eq!(ir.fields[0].required, false);
    assert_eq!(ir.fields[0].ty, simple_ty("String"));
    assert_eq!(ir.fields[1].required, false);
    assert_eq!(ir.fields[1].ty, simple_ty("u32"));
    assert_eq!(ir.fields[2].required, false);
    assert_eq!(ir.fields[2].ty, simple_ty("bool"));
}

#[test]
fn unrecognized_option_spellings_stay_required() {
    // A two-segment spelling is outside the allow-list, as is a qualified-self
    // path and an `Option` without a type argument.
    let qualified = Ty::Path {
        qself: true,
        segments: vec![seg("Option", PathArgs::AngleBracketed(vec![GenArg::Type(simple_ty("String"))]))],
    };
    let no_args = simple_ty("Option");
    let input = record(
        "T",
        vec![
            field("a", two_seg_ty(), vec![], Vis::Inherited),
            field("b", qualified, vec![], Vis::Inherited),
            field("c", no_args, vec![], Vis::Inherited),
        ],
    );
    let ir = lower(analyze(input));
    assert_eq!(ir.fields[0].required, true);
    assert_eq!(ir.fields[0].ty, two_seg_ty());
    assert_eq!(ir.fields[1].required, true);
    assert_eq!(ir.fields[2].required, true);
}

#[test]
fn accumulator_field_unwraps_element_type() {
    let input = record(
        "T",
        vec![field("args", wrapped_ty("Vec", simple_ty("String")), vec![each_attr("arg")], Vis::Inherited)],
    );
    let ir = lower(analyze(input));
    assert_eq!(ir.fields[0].required, true);
    assert_eq!(ir.fields[0].each, Some("arg".to_string()));
    assert_eq!(ir.fields[0].ty, simple_ty("String"));
}

#[test]
fn accumulator_on_non_collection_degrades_to_required() {
    let input = record(
        "T",
        vec![field("tag", simple_ty("String"), vec![each_attr("t")], Vis::Inherited)],
    );
    let ir = lower(analyze(input));
    assert_eq!(ir.fields[0].required, true);
    assert_eq!(ir.fields[0].each, Some("t".to_string()));
    assert_eq!(ir.fields[0].ty, simple_ty("String"));
}

#[test]
fn unrecognized_annotations_are_ignored() {
    // A foreign namespace, an unparsable annotation, an unrecognized key and
    // a non-string literal all have no effect; the last recognized entry
    // wins.
    let foreign = Attr { path: vec!["serde".to_string()], meta: Meta::Other };
    let unparsable = Attr { path: vec!["builder".to_string()], meta: Meta::Other };
    let odd_key = Attr {
        path: vec!["builder".to_string()],
        meta: Meta::List(vec![Nested::NameValue {
            path: vec!["rename".to_string()],
            lit: Lit::Str("x".to_string()),
        }]),
    };
    let non_string = Attr {
        path: vec!["builder".to_string()],
        meta: Meta::List(vec![Nested::NameValue {
            path: vec!["each".to_string()],
            lit: Lit::Other,
        }]),
    };
    let input = record(
        "T",
        vec![
            field(
                "xs",
                wrapped_ty("Vec", simple_ty("String")),
                vec![foreign, unparsable, odd_key, non_string],
                Vis::Inherited,
            ),
            field(
                "ys",
                wrapped_ty("Vec", simple_ty("String")),
                vec![each_attr("first"), each_attr("second")],
                Vis::Inherited,
            ),
        ],
    );
    let ir = lower(analyze(input));
    assert_eq!(ir.fields[0].each, None);
    assert_eq!(ir.fields[0].required, true);
    assert_eq!(ir.fields[1].each, Some("second".to_string()));
}

#[test]
fn alias_equal_to_field_name_suppresses_bulk_setter() {
    let input = record(
        "T",
        vec![field("env", wrapped_ty("Vec", simple_ty("String")), vec![each_attr("env")], Vis::Inherited)],
    );
    let rust = codegen(lower(analyze(input)));
    assert_eq!(rust.setters.len(), 1);
    assert_eq!(rust.setters[0].name, "env");
    assert_eq!(rust.setters[0].kind, SetterKind::Element);
}

#[test]
fn alias_distinct_from_field_name_generates_both_setters() {
    let input = record(
        "T",
        vec![field("args", wrapped_ty("Vec", simple_ty("String")), vec![each_attr("arg")], Vis::Inherited)],
    );
    let rust = codegen(lower(analyze(input)));
    assert_eq!(rust.setters.len(), 2);
    assert_eq!(rust.setters[0].name, "arg");
    assert_eq!(rust.setters[0].kind, SetterKind::Element);
    assert_eq!(rust.setters[0].field, "args");
    assert_eq!(rust.setters[1].name, "args");
    assert_eq!(rust.setters[1].kind, SetterKind::Bulk);
}

#[test]
fn build_steps_follow_classification() {
    let input = record(
        "Command",
        vec![
            field("executable", simple_ty("String"), vec![], Vis::Inherited),
            field("args", wrapped_ty("Vec", simple_ty("String")), vec![each_attr("arg")], Vis::Inherited),
            field("current_dir", wrapped_ty("Option", simple_ty("String")), vec![], Vis::Inherited),
        ],
    );
    let rust = codegen(lower(analyze(input)));
    assert_eq!(
        rust.build[0].kind,
        BuildKind::Require { msg: "missing value for field 'executable'".to_string() },
    );
    assert_eq!(rust.build[1].kind, BuildKind::Collect);
    assert_eq!(rust.build[2].kind, BuildKind::Keep);
}
