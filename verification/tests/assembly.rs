use builder::analyze::analyze;
use builder::ast::{Ast, Attr, DataShape, Field, FieldsShape, GenArg, Lit, Meta, Nested, PathArgs,
    PathSeg, Span, Ty, Vis};
use builder::lower::{lower, Ir};
use builder::semantics::{BuilderInstance, FieldValue};

/// A field value for the scenarios: a single string or a whole collection.
#[derive(Clone, Debug, PartialEq)]
enum Val {
    S(String),
    L(Vec<String>),
}

fn s(text: &str) -> Val {
    Val::S(text.to_string())
}

fn seg(name: &str, args: PathArgs) -> PathSeg {
    PathSeg { ident: name.to_string(), args }
}

fn simple_ty(name: &str) -> Ty {
    Ty::Path { qself: false, segments: vec![seg(name, PathArgs::Empty)] }
}

fn wrapped_ty(outer: &str, inner: Ty) -> Ty {
    Ty::Path {
        qself: false,
        segments: vec![seg(outer, PathArgs::AngleBracketed(vec![GenArg::Type(inner)]))],
    }
}

fn field(name: &str, ty: Ty, attrs: Vec<Attr>) -> Field {
    Field { name: name.to_string(), ty, attrs, vis: Vis::Inherited, span: Span { line: 1, column: 0 } }
}

fn each_attr(alias: &str) -> Attr {
    Attr {
        path: vec!["builder".to_string()],
        meta: Meta::List(vec![Nested::NameValue {
            path: vec!["each".to_string()],
            lit: Lit::Str(alias.to_string()),
        }]),
    }
}

/// The scenario record: a required string, an accumulator whose alias
/// differs from the field's name, a required collection set whole, and an
/// optional string.
fn command_ir() -> Ir {
    let input = Ast {
        ident: "Command".to_string(),
        data: DataShape::Struct(FieldsShape::Named(vec![
            field("executable", simple_ty("String"), vec![]),
            field("args", wrapped_ty("Vec", simple_ty("String")), vec![each_attr("arg")]),
            field("env", wrapped_ty("Vec", simple_ty("String")), vec![]),
            field("current_dir", wrapped_ty("Option", simple_ty("String")), vec![]),
        ])),
    };
    lower(analyze(input))
}

fn name(text: &str) -> String {
    text.to_string()
}

#[test]
fn assembling_full_command_succeeds() {
    let mut b: BuilderInstance<Val> = BuilderInstance::new(command_ir());
    assert!(b.call_plain(&name("executable"), s("cargo")));
    assert!(b.call_element(&name("arg"), s("build")));
    assert!(b.call_element(&name("arg"), s("--release")));
    assert!(b.call_plain(&name("env"), Val::L(vec![])));
    let record = b.build().unwrap();
    assert_eq!(record.entries.len(), 4);
    assert_eq!(record.entries[0].name, "executable");
    assert_eq!(record.entries[0].value, FieldValue::One(s("cargo")));
    assert_eq!(record.entries[1].name, "args");
    assert_eq!(record.entries[1].value, FieldValue::Many(vec![s("build"), s("--release")]));
    assert_eq!(record.entries[2].value, FieldValue::One(Val::L(vec![])));
    assert_eq!(record.entries[3].name, "current_dir");
    assert_eq!(record.entries[3].value, FieldValue::Maybe(None));
}

#[test]
fn assembling_with_current_dir_keeps_it() {
    let mut b: BuilderInstance<Val> = BuilderInstance::new(command_ir());
    assert!(b.call_plain(&name("executable"), s("cargo")));
    assert!(b.call_element(&name("arg"), s("build")));
    assert!(b.call_element(&name("arg"), s("--release")));
    assert!(b.call_plain(&name("env"), Val::L(vec![])));
    assert!(b.call_plain(&name("current_dir"), s("..")));
    let record = b.build().unwrap();
    assert_eq!(record.entries[3].value, FieldValue::Maybe(Some(s(".."))));
}

#[test]
fn omitting_executable_names_it_in_the_error() {
    let mut b: BuilderInstance<Val> = BuilderInstance::new(command_ir());
    assert!(b.call_element(&name("arg"), s("build")));
    assert!(b.call_plain(&name("env"), Val::L(vec![])));
    let err = b.build().unwrap_err();
    assert_eq!(err.field, "executable");
    assert_eq!(err.message(), "missing value for field 'executable'");
}

#[test]
fn untouched_accumulator_assembles_to_empty() {
    let mut b: BuilderInstance<Val> = BuilderInstance::new(command_ir());
    assert!(b.call_plain(&name("executable"), s("cargo")));
    assert!(b.call_plain(&name("env"), Val::L(vec![])));
    let record = b.build().unwrap();
    assert_eq!(record.entries[1].value, FieldValue::Many(vec![]));
}

#[test]
fn bulk_setter_replaces_accumulated_elements() {
    let mut b: BuilderInstance<Val> = BuilderInstance::new(command_ir());
    assert!(b.call_plain(&name("executable"), s("cargo")));
    assert!(b.call_element(&name("arg"), s("one")));
    assert!(b.call_element(&name("arg"), s("two")));
    assert!(b.call_bulk(&name("args"), vec![s("only")]));
    assert!(b.call_plain(&name("env"), Val::L(vec![])));
    let record = b.build().unwrap();
    assert_eq!(record.entries[1].value, FieldValue::Many(vec![s("only")]));
}

#[test]
fn plain_setter_replaces_prior_value() {
    let mut b: BuilderInstance<Val> = BuilderInstance::new(command_ir());
    assert!(b.call_plain(&name("executable"), s("gcc")));
    assert!(b.call_plain(&name("executable"), s("cargo")));
    assert!(b.call_plain(&name("env"), Val::L(vec![])));
    let record = b.build().unwrap();
    assert_eq!(record.entries[0].value, FieldValue::One(s("cargo")));
}

#[test]
fn no_setter_under_an_unknown_name() {
    let mut b: BuilderInstance<Val> = BuilderInstance::new(command_ir());
    assert!(!b.call_plain(&name("arg"), s("x")));
    assert!(!b.call_element(&name("args"), s("x")));
    assert!(!b.call_bulk(&name("executable"), vec![s("x")]));
}

#[test]
fn alias_equal_to_name_leaves_no_bulk_setter() {
    let input = Ast {
        ident: "T".to_string(),
        data: DataShape::Struct(FieldsShape::Named(vec![
            field("env", wrapped_ty("Vec", simple_ty("String")), vec![each_attr("env")]),
        ])),
    };
    let mut b: BuilderInstance<Val> = BuilderInstance::new(lower(analyze(input)));
    // Bulk-style invocation finds no method; the element setter exists.
    assert!(!b.call_bulk(&name("env"), vec![s("A=1")]));
    assert!(b.call_element(&name("env"), s("A=1")));
    let record = b.build().unwrap();
    assert_eq!(record.entries[0].value, FieldValue::Many(vec![s("A=1")]));
}

#[test]
fn optional_field_is_read_without_being_cleared() {
    let mut b: BuilderInstance<Val> = BuilderInstance::new(command_ir());
    assert!(b.call_plain(&name("executable"), s("cargo")));
    assert!(b.call_plain(&name("env"), Val::L(vec![])));
    assert!(b.call_plain(&name("current_dir"), s("..")));
    let first = b.build().unwrap();
    assert_eq!(first.entries[3].value, FieldValue::Maybe(Some(s(".."))));
    // Required slots were consumed, the optional one was not.
    let err = b.build().unwrap_err();
    assert_eq!(err.field, "executable");
    assert!(b.call_plain(&name("executable"), s("cargo")));
    assert!(b.call_plain(&name("env"), Val::L(vec![])));
    let second = b.build().unwrap();
    assert_eq!(second.entries[3].value, FieldValue::Maybe(Some(s(".."))));
    assert_eq!(second.entries[1].value, FieldValue::Many(vec![]));
}
