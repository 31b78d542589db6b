//! Code generator: consumes the IR and emits the builder's declarations in
//! structural form: the storage layout (one optional-wrapped slot per
//! field), the initializer, one or two setter methods per field, and the
//! per-field steps of the validating assembly method.

use vstd::prelude::*;

use crate::ast::Ty;
use crate::lower::{FieldIr, Ir};
use vstd::string::StringExecFns;

verus! {

/// One storage slot of the builder: the slot is presence-tracked, wrapping
/// `ty` (the field's effective type) in an optional.
#[derive(Debug, PartialEq)]
pub struct StorageSlot {
    pub name: String,
    pub ty: Ty,
}

/// One entry of the builder's initializer: the named slot starts absent.
#[derive(Debug, PartialEq)]
pub struct InitSlot {
    pub name: String,
}

/// The shape of one generated setter method.
#[derive(Debug, PartialEq)]
pub enum SetterKind {
    /// Accepts one element of the effective type and appends it to the
    /// field's collection, initializing it on first use.
    Element,
    /// Accepts the whole collection and replaces any accumulated content.
    Bulk,
    /// Accepts the effective type and stores it, replacing any prior value.
    Plain,
}

/// One generated setter method: its name, the field whose slot it writes,
/// and its shape. Every setter returns a mutable reference to the builder,
/// so calls chain.
#[derive(Debug, PartialEq)]
pub struct Setter {
    pub name: String,
    pub field: String,
    pub kind: SetterKind,
}

/// How the assembly method produces one field's final value.
#[derive(Debug, PartialEq)]
pub enum BuildKind {
    /// Takes ownership of the stored value; when the slot is absent,
    /// assembly fails with `msg`, which names the field.
    Require { msg: String },
    /// Takes the accumulated collection; an untouched slot yields the empty
    /// collection, so assembly never fails here.
    Collect,
    /// Reads the stored optional value as-is, without clearing it; absence
    /// is a valid result, never a failure.
    Keep,
}

/// One step of the assembly method, in field declaration order.
#[derive(Debug, PartialEq)]
pub struct BuildStep {
    pub field: String,
    pub kind: BuildKind,
}

/// The generated declarations: one builder type with its storage and
/// initializer, the setter methods, the assembly steps, and the factory
/// method on the target type returning a fresh builder.
#[derive(Debug, PartialEq)]
pub struct Rust {
    pub target: String,
    pub builder: String,
    pub fields: Vec<StorageSlot>,
    pub init: Vec<InitSlot>,
    pub setters: Vec<Setter>,
    pub build: Vec<BuildStep>,
}

/// The storage slot generated for one field.
pub open spec fn storage_of(f: FieldIr) -> StorageSlot {
    StorageSlot { name: f.name, ty: f.ty }
}

/// The initializer entry generated for one field.
pub open spec fn init_of(f: FieldIr) -> InitSlot {
    InitSlot { name: f.name }
}

/// The setters generated for one field: an element setter named by the
/// alias when the field accumulates, a bulk setter named by the field
/// itself when the alias differs from the field's name (suppressed when
/// they coincide, since the two methods would collide), and otherwise a
/// single plain setter named by the field.
pub open spec fn setters_of(f: FieldIr) -> Seq<Setter> {
    match f.each {
        Some(a) => {
            if a@ == f.name@ {
                seq![Setter { name: a, field: f.name, kind: SetterKind::Element }]
            } else {
                seq![
                    Setter { name: a, field: f.name, kind: SetterKind::Element },
                    Setter { name: f.name, field: f.name, kind: SetterKind::Bulk },
                ]
            }
        },
        None => seq![Setter { name: f.name, field: f.name, kind: SetterKind::Plain }],
    }
}

/// All setters generated for a field list, flattened in field order.
pub open spec fn all_setters(fs: Seq<FieldIr>) -> Seq<Setter>
    decreases fs.len(),
{
    if fs.len() == 0 {
        Seq::empty()
    } else {
        all_setters(fs.drop_last()) + setters_of(fs.last())
    }
}

/// The diagnostic carried by a required field's assembly step.
pub open spec fn missing_msg(name: Seq<char>) -> Seq<char> {
    "missing value for field '"@ + name + "'"@
}

/// Whether `b` is the assembly step generated for field `f`: accumulator
/// fields collect (an untouched slot yields the empty collection), other
/// required fields take their value or fail with a message naming the
/// field, and optional fields are read as-is.
pub open spec fn build_step_matches(f: FieldIr, b: BuildStep) -> bool {
    &&& b.field == f.name
    &&& match f.each {
        Some(_) => b.kind is Collect,
        None => if f.required {
            b.kind matches BuildKind::Require { msg } && msg@ == missing_msg(f.name@)
        } else {
            b.kind is Keep
        },
    }
}

/// When the accumulator alias equals the field's own name, only the element
/// setter is generated; a bulk setter would collide with it, so none
/// exists.
pub proof fn lemma_equal_alias_suppresses_bulk(f: FieldIr)
    requires
        f.each matches Some(a) && a@ == f.name@,
    ensures
        setters_of(f).len() == 1,
        setters_of(f)[0].kind is Element,
        forall|i: int|
            0 <= i < setters_of(f).len() ==> !((#[trigger] setters_of(f)[i]).kind is Bulk),
{
}

/// When the accumulator alias differs from the field's own name, the
/// element setter is joined by a bulk setter named after the field.
pub proof fn lemma_distinct_alias_generates_bulk(f: FieldIr)
    requires
        f.each matches Some(a) && a@ != f.name@,
    ensures
        setters_of(f).len() == 2,
        setters_of(f)[0].kind is Element,
        setters_of(f)[1].kind is Bulk,
        setters_of(f)[1].name == f.name,
{
}

/// Emits the storage slot for one field, consuming it.
pub fn to_builder_field(f: FieldIr) -> (r: StorageSlot)
    ensures
        r == storage_of(f),
{
    StorageSlot { name: f.name, ty: f.ty }
}

/// Emits the initializer entry for one field.
pub fn to_builder_init(f: &FieldIr) -> (r: InitSlot)
    ensures
        r == init_of(*f),
{
    InitSlot { name: f.name.clone() }
}

/// Emits the one or two setters for one field.
pub fn to_setter(f: &FieldIr) -> (r: Vec<Setter>)
    ensures
        r@ == setters_of(*f),
{
    let mut items: Vec<Setter> = Vec::new();
    match &f.each {
        Some(a) => {
            items.push(Setter { name: a.clone(), field: f.name.clone(), kind: SetterKind::Element });
            if !a.eq(&f.name) {
                items.push(
                    Setter { name: f.name.clone(), field: f.name.clone(), kind: SetterKind::Bulk },
                );
            }
        },
        None => {
            items.push(Setter { name: f.name.clone(), field: f.name.clone(), kind: SetterKind::Plain });
        },
    }
    proof {
        assert(items@ =~= setters_of(*f));
    }
    items
}

/// Emits the assembly step for one field.
pub fn to_build_call(f: &FieldIr) -> (r: BuildStep)
    ensures
        build_step_matches(*f, r),
{
    let kind = match &f.each {
        Some(_) => BuildKind::Collect,
        None => {
            if f.required {
                let mut msg = String::from_str("missing value for field '");
                msg.append(f.name.as_str());
                msg.append("'");
                BuildKind::Require { msg }
            } else {
                BuildKind::Keep
            }
        },
    };
    BuildStep { field: f.name.clone(), kind }
}

/// Emits the full set of generated declarations for one record: exactly one
/// storage slot, one initializer entry and one assembly step per classified
/// field, in declaration order, plus that field's setters.
pub fn codegen(ir: Ir) -> (r: Rust)
    ensures
        r.target == ir.target,
        r.builder == ir.builder,
        r.fields@ == ir.fields@.map_values(|f: FieldIr| storage_of(f)),
        r.init@ == ir.fields@.map_values(|f: FieldIr| init_of(f)),
        r.setters@ == all_setters(ir.fields@),
        r.build@.len() == ir.fields@.len(),
        forall|i: int|
            0 <= i < ir.fields@.len() ==> build_step_matches(
                ir.fields@[i],
                #[trigger] r.build@[i],
            ),
{
    let Ir { target, builder, mut fields } = ir;
    let ghost orig = fields@;

    let mut storage: Vec<StorageSlot> = Vec::new();
    let mut init: Vec<InitSlot> = Vec::new();
    let mut setters: Vec<Setter> = Vec::new();
    let mut build: Vec<BuildStep> = Vec::new();

    while fields.len() > 0
        invariant
            storage@.len() + fields@.len() == orig.len(),
            fields@ =~= orig.skip(storage@.len() as int),
            storage@ =~= orig.take(storage@.len() as int).map_values(
                |f: FieldIr| storage_of(f),
            ),
            init@ =~= orig.take(storage@.len() as int).map_values(|f: FieldIr| init_of(f)),
            setters@ =~= all_setters(orig.take(storage@.len() as int)),
            build@.len() == storage@.len(),
            forall|i: int|
                0 <= i < build@.len() ==> build_step_matches(orig[i], #[trigger] build@[i]),
        decreases fields@.len(),
    {
        let ghost k = storage@.len() as int;
        let f = fields.remove(0);
        proof {
            assert(f == orig[k]);
            assert(fields@ =~= orig.skip(k + 1));
        }

        init.push(to_builder_init(&f));
        let mut these = to_setter(&f);
        setters.append(&mut these);
        build.push(to_build_call(&f));
        storage.push(to_builder_field(f));

        proof {
            assert(orig.take(k + 1).drop_last() =~= orig.take(k));
            assert(orig.take(k + 1).last() == orig[k]);
            assert(storage@ =~= orig.take(k + 1).map_values(|f: FieldIr| storage_of(f)));
            assert(init@ =~= orig.take(k + 1).map_values(|f: FieldIr| init_of(f)));
            assert(setters@ =~= all_setters(orig.take(k + 1)));
        }
    }
    proof {
        assert(orig.take(orig.len() as int) =~= orig);
    }
    Rust { target, builder, fields: storage, init, setters, build }
}

} // verus!
