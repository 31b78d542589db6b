//! Field classifier: lowers each analyzed field into the intermediate
//! representation that drives code generation.
//!
//! For every field the classifier decides, by purely structural matching:
//! whether the field is required at assembly time, whether it accumulates
//! elements one at a time (an `each` alias found in a `builder` annotation),
//! and the effective type the builder stores and accepts (the payload of an
//! `Option<..>` or `Vec<..>` wrapper, when one is recognized). Unrecognized
//! shapes never fail: they degrade to a required field of the unchanged type.

use vstd::prelude::*;

use crate::analyze::Model;
use crate::ast::{Attr, Field, GenArg, Lit, Meta, Nested, PathArgs, PathSeg, Span, Ty, Vis};
use vstd::string::StringExecFns;

verus! {

/// Classifier output for the whole record: the single source of truth for
/// code generation.
#[derive(Debug, PartialEq)]
pub struct Ir {
    pub target: String,
    pub builder: String,
    pub fields: Vec<FieldIr>,
}

/// Classifier output for one field.
#[derive(Debug, PartialEq)]
pub struct FieldIr {
    pub name: String,
    /// The effective type the builder stores and accepts.
    pub ty: Ty,
    /// Whether the field must be present for assembly to succeed.
    pub required: bool,
    /// The accumulator alias, when an `each = "<alias>"` annotation was found.
    pub each: Option<String>,
    pub vis: Vis,
    pub span: Span,
}

/// The alias carried by the last recognized `each = "<alias>"` entry of one
/// annotation list, if any. Later entries override earlier ones; entries of
/// any other shape are ignored.
pub open spec fn each_in_entries(items: Seq<Nested>) -> Option<String>
    decreases items.len(),
{
    if items.len() == 0 {
        None
    } else {
        match items.last() {
            Nested::NameValue { path, lit } => {
                if path@.len() == 1 && path@[0]@ == "each"@ {
                    match lit {
                        Lit::Str(s) => Some(s),
                        Lit::Other => each_in_entries(items.drop_last()),
                    }
                } else {
                    each_in_entries(items.drop_last())
                }
            },
            Nested::Other => each_in_entries(items.drop_last()),
        }
    }
}

/// The accumulator alias carried by a field's annotations: the last
/// recognized `each = "<alias>"` entry inside a `builder(..)` annotation
/// list. Annotations outside the `builder` namespace, annotations whose
/// contents are not a list, and unrecognized entries are all ignored.
pub open spec fn each_alias(attrs: Seq<Attr>) -> Option<String>
    decreases attrs.len(),
{
    if attrs.len() == 0 {
        None
    } else {
        let a = attrs.last();
        if a.path@.len() == 1 && a.path@[0]@ == "builder"@ {
            match a.meta {
                Meta::List(items) => match each_in_entries(items@) {
                    Some(s) => Some(s),
                    None => each_alias(attrs.drop_last()),
                },
                Meta::Other => each_alias(attrs.drop_last()),
            }
        } else {
            each_alias(attrs.drop_last())
        }
    }
}

/// Whether a path's segment names spell `Option` in one of its canonical
/// qualified forms.
pub open spec fn option_path_named(segs: Seq<PathSeg>) -> bool {
    ||| (segs.len() == 1 && segs[0].ident@ == "Option"@)
    ||| (segs.len() == 3 && segs[0].ident@ == "std"@ && segs[1].ident@ == "option"@
        && segs[2].ident@ == "Option"@)
    ||| (segs.len() == 3 && segs[0].ident@ == "core"@ && segs[1].ident@ == "option"@
        && segs[2].ident@ == "Option"@)
}

/// Whether a path's segment names spell `Vec` by its bare path.
pub open spec fn vec_path_named(segs: Seq<PathSeg>) -> bool {
    segs.len() == 1 && segs[0].ident@ == "Vec"@
}

/// The first angle-bracketed type argument of a path segment, if there is
/// one.
pub open spec fn first_type_arg(seg: PathSeg) -> Option<Ty> {
    match seg.args {
        PathArgs::AngleBracketed(args) => {
            if args@.len() > 0 {
                match args@[0] {
                    GenArg::Type(t) => Some(t),
                    GenArg::Other => None,
                }
            } else {
                None
            }
        },
        _ => None,
    }
}

/// Whether `ty` structurally matches `optional-of-T`: an unqualified path
/// spelling `Option` whose last segment carries a first type argument.
pub open spec fn option_match(ty: Ty) -> bool {
    match ty {
        Ty::Path { qself, segments } => !qself && option_path_named(segments@)
            && first_type_arg(segments@.last()) is Some,
        Ty::Other => false,
    }
}

/// The payload `T` of an `optional-of-T` match; meaningful only when
/// `option_match` holds.
pub open spec fn option_payload(ty: Ty) -> Ty {
    match ty {
        Ty::Path { qself: _, segments } => match first_type_arg(segments@.last()) {
            Some(t) => t,
            None => vstd::pervasive::arbitrary(),
        },
        Ty::Other => vstd::pervasive::arbitrary(),
    }
}

/// Whether `ty` structurally matches `collection-of-T`: an unqualified bare
/// `Vec` path whose segment carries a first type argument.
pub open spec fn vec_match(ty: Ty) -> bool {
    match ty {
        Ty::Path { qself, segments } => !qself && vec_path_named(segments@) && first_type_arg(
            segments@.last(),
        ) is Some,
        Ty::Other => false,
    }
}

/// The payload `T` of a `collection-of-T` match; meaningful only when
/// `vec_match` holds.
pub open spec fn vec_payload(ty: Ty) -> Ty {
    option_payload(ty)
}

/// Whether a field classifies as required: every field with an accumulator
/// alias is required; without one, exactly the fields that are not
/// `optional-of-T` are required.
pub open spec fn classify_required(f: Field) -> bool {
    if each_alias(f.attrs@) is Some {
        true
    } else {
        !option_match(f.ty)
    }
}

/// The effective type of a field: the collection's element type for a
/// recognized accumulator field, the optional's payload for a recognized
/// optional field, and otherwise the declared type unchanged.
pub open spec fn classify_ty(f: Field) -> Ty {
    match each_alias(f.attrs@) {
        Some(_) => if vec_match(f.ty) {
            vec_payload(f.ty)
        } else {
            f.ty
        },
        None => if option_match(f.ty) {
            option_payload(f.ty)
        } else {
            f.ty
        },
    }
}

/// The classified form of one field.
pub open spec fn lower_field(f: Field) -> FieldIr {
    FieldIr {
        name: f.name,
        ty: classify_ty(f),
        required: classify_required(f),
        each: each_alias(f.attrs@),
        vis: f.vis,
        span: f.span,
    }
}

/// A field declared as `optional-of-T`, carrying no accumulator alias,
/// always classifies as not required, with effective type `T`.
pub proof fn lemma_optional_field_classification(f: Field)
    requires
        each_alias(f.attrs@) is None,
        option_match(f.ty),
    ensures
        !classify_required(f),
        classify_ty(f) == option_payload(f.ty),
{
}

/// A field carrying an accumulator alias always classifies as required,
/// whatever its declared type, and the alias is kept in its classified
/// form.
pub proof fn lemma_accumulator_field_required(f: Field)
    requires
        each_alias(f.attrs@) is Some,
    ensures
        classify_required(f),
        lower_field(f).each == each_alias(f.attrs@),
        lower_field(f).required,
{
}

/// Compares a string against a literal spelling.
fn str_is(s: &String, lit: &str) -> (b: bool)
    ensures
        b == (s@ == lit@),
{
    let l = String::from_str(lit);
    s.eq(&l)
}

/// Scans a field's annotations for the accumulator alias, last entry
/// winning.
fn scan_each(attrs: &Vec<Attr>) -> (r: Option<String>)
    ensures
        r == each_alias(attrs@),
{
    let mut each: Option<String> = None;
    let mut i: usize = 0;
    while i < attrs.len()
        invariant
            i <= attrs@.len(),
            each == each_alias(attrs@.take(i as int)),
        decreases attrs@.len() - i,
    {
        let a = &attrs[i];
        if a.path.len() == 1 && str_is(&a.path[0], "builder") {
            match &a.meta {
                Meta::List(items) => {
                    let mut j: usize = 0;
                    while j < items.len()
                        invariant
                            j <= items@.len(),
                            a == attrs@[i as int],
                            a.meta matches Meta::List(its) && its == items,
                            each == match each_in_entries(items@.take(j as int)) {
                                Some(s) => Some(s),
                                None => each_alias(attrs@.take(i as int)),
                            },
                        decreases items@.len() - j,
                    {
                        match &items[j] {
                            Nested::NameValue { path, lit } => {
                                if path.len() == 1 && str_is(&path[0], "each") {
                                    match lit {
                                        Lit::Str(s) => {
                                            each = Some(s.clone());
                                        },
                                        Lit::Other => {},
                                    }
                                }
                            },
                            Nested::Other => {},
                        }
                        proof {
                            assert(items@.take(j + 1).drop_last() =~= items@.take(j as int));
                            assert(items@.take(j + 1).last() == items@[j as int]);
                        }
                        j += 1;
                    }
                    proof {
                        assert(items@.take(items@.len() as int) =~= items@);
                    }
                },
                Meta::Other => {},
            }
        }
        proof {
            assert(attrs@.take(i + 1).drop_last() =~= attrs@.take(i as int));
            assert(attrs@.take(i + 1).last() == attrs@[i as int]);
        }
        i += 1;
    }
    proof {
        assert(attrs@.take(attrs@.len() as int) =~= attrs@);
    }
    each
}

/// Checks whether `ty` structurally matches `optional-of-T`.
fn is_option_shape(ty: &Ty) -> (b: bool)
    ensures
        b == option_match(*ty),
{
    match ty {
        Ty::Path { qself, segments } => {
            if *qself {
                return false;
            }
            let names_ok = if segments.len() == 1 {
                str_is(&segments[0].ident, "Option")
            } else if segments.len() == 3 {
                (str_is(&segments[0].ident, "std") || str_is(&segments[0].ident, "core"))
                    && str_is(&segments[1].ident, "option") && str_is(&segments[2].ident, "Option")
            } else {
                false
            };
            if !names_ok {
                return false;
            }
            has_first_type_arg(&segments[segments.len() - 1])
        },
        Ty::Other => false,
    }
}

/// Checks whether `ty` structurally matches `collection-of-T`.
fn is_vec_shape(ty: &Ty) -> (b: bool)
    ensures
        b == vec_match(*ty),
{
    match ty {
        Ty::Path { qself, segments } => {
            if *qself {
                return false;
            }
            let names_ok = segments.len() == 1 && str_is(&segments[0].ident, "Vec");
            if !names_ok {
                return false;
            }
            has_first_type_arg(&segments[segments.len() - 1])
        },
        Ty::Other => false,
    }
}

/// Checks whether a path segment carries a first angle-bracketed type
/// argument.
fn has_first_type_arg(seg: &PathSeg) -> (b: bool)
    ensures
        b == (first_type_arg(*seg) is Some),
{
    match &seg.args {
        PathArgs::AngleBracketed(args) => {
            if args.len() > 0 {
                match &args[0] {
                    GenArg::Type(_) => true,
                    GenArg::Other => false,
                }
            } else {
                false
            }
        },
        _ => false,
    }
}

/// Takes the first type argument out of a matched wrapper type; the caller
/// has established that the shape matches.
fn take_payload(ty: Ty) -> (r: Ty)
    requires
        ty matches Ty::Path { qself, segments } && first_type_arg(segments@.last()) is Some
            && segments@.len() > 0,
    ensures
        ty matches Ty::Path { qself, segments } && r == first_type_arg(
            segments@.last(),
        )->Some_0,
{
    match ty {
        Ty::Path { qself: _, mut segments } => {
            let last = segments.pop().unwrap();
            match last.args {
                PathArgs::AngleBracketed(mut args) => {
                    let first = args.remove(0);
                    match first {
                        GenArg::Type(t) => t,
                        GenArg::Other => vstd::pervasive::unreached(),
                    }
                },
                _ => vstd::pervasive::unreached(),
            }
        },
        Ty::Other => vstd::pervasive::unreached(),
    }
}

/// Structurally unwraps `optional-of-T`, returning the payload `T`, or the
/// unchanged type when the shape does not match.
pub fn extract_type_from_option(ty: Ty) -> (r: Result<Ty, Ty>)
    ensures
        option_match(ty) ==> r == Ok::<Ty, Ty>(option_payload(ty)),
        !option_match(ty) ==> r == Err::<Ty, Ty>(ty),
{
    if is_option_shape(&ty) {
        Ok(take_payload(ty))
    } else {
        Err(ty)
    }
}

/// Structurally unwraps `collection-of-T`, returning the element type `T`,
/// or the unchanged type when the shape does not match.
pub fn extract_type_from_vector(ty: Ty) -> (r: Result<Ty, Ty>)
    ensures
        vec_match(ty) ==> r == Ok::<Ty, Ty>(vec_payload(ty)),
        !vec_match(ty) ==> r == Err::<Ty, Ty>(ty),
{
    if is_vec_shape(&ty) {
        Ok(take_payload(ty))
    } else {
        Err(ty)
    }
}

/// Classifies one field.
fn classify(f: Field) -> (r: FieldIr)
    ensures
        r == lower_field(f),
{
    let ghost f0 = f;
    let Field { name, ty, attrs, vis, span } = f;
    let each = scan_each(&attrs);

    let (ty, required): (Ty, bool) = if each.is_none() {
        match extract_type_from_option(ty) {
            Ok(inner) => (inner, false),
            Err(orig) => (orig, true),
        }
    } else {
        match extract_type_from_vector(ty) {
            Ok(inner) => (inner, true),
            Err(orig) => (orig, true),
        }
    };
    FieldIr { name, ty, required, each, vis, span }
}

/// Lowers every analyzed field, in order, into the IR consumed by the code
/// generator. Classification never fails: unrecognized shapes keep the
/// declared type and classify as required.
pub fn lower(model: Model) -> (ir: Ir)
    ensures
        ir.target == model.target,
        ir.builder == model.builder,
        ir.fields@ == model.fields@.map_values(|f: Field| lower_field(f)),
{
    let ghost model0 = model;
    let Model { target, builder, mut fields } = model;
    let ghost orig = fields@;
    let mut out: Vec<FieldIr> = Vec::new();
    while fields.len() > 0
        invariant
            out@.len() + fields@.len() == orig.len(),
            fields@ =~= orig.skip(out@.len() as int),
            out@ =~= orig.take(out@.len() as int).map_values(|f: Field| lower_field(f)),
        decreases fields@.len(),
    {
        let ghost k = out@.len() as int;
        let f = fields.remove(0);
        proof {
            assert(f == orig[k]);
            assert(fields@ =~= orig.skip(k + 1));
        }
        let fi = classify(f);
        out.push(fi);
        proof {
            assert(orig.take(k + 1).drop_last() =~= orig.take(k));
            assert(out@ =~= orig.take(k + 1).map_values(|f: Field| lower_field(f)));
        }
    }
    proof {
        assert(orig.take(orig.len() as int) =~= orig);
    }
    Ir { target, builder, fields: out }
}

} // verus!
