//! Executable model of a generated builder's behavior.
//!
//! The code generator emits declarations; this module gives those
//! declarations their runtime meaning, so that the promised behavior of a
//! generated builder — which setters exist, how elements accumulate, and
//! when assembly succeeds — is stated and checked here. A builder instance
//! holds one presence-tracked slot per classified field; setters are invoked
//! by name, mirroring method resolution on the generated type: invoking a
//! name for which no setter was generated reports that no such method
//! exists. Slot contents are generic in the value type `V`, standing in for
//! values of the fields' effective types; an accumulator slot holds a
//! collection of such values.

use vstd::prelude::*;

use crate::codegen::{missing_msg, setters_of};
use crate::lower::{FieldIr, Ir};
use vstd::string::StringExecFns;

verus! {

/// The state of one builder slot: absent, holding a single value, or
/// holding accumulated collection content.
#[derive(Debug, PartialEq)]
pub enum SlotState<V> {
    Unset,
    One(V),
    Many(Vec<V>),
}

/// The assembled value of one field: a required single value, a collection,
/// or an optional value that may be absent.
#[derive(Debug, PartialEq)]
pub enum FieldValue<V> {
    One(V),
    Many(Vec<V>),
    Maybe(Option<V>),
}

/// One field of an assembled record.
#[derive(Debug, PartialEq)]
pub struct Entry<V> {
    pub name: String,
    pub value: FieldValue<V>,
}

/// A fully assembled record: one entry per field, in declaration order.
#[derive(Debug, PartialEq)]
pub struct RecordValue<V> {
    pub entries: Vec<Entry<V>>,
}

/// The one assembly-time failure: a required field's slot was absent.
#[derive(Debug, PartialEq)]
pub struct BuildError {
    pub field: String,
}

impl BuildError {
    /// The diagnostic text, naming the missing field.
    pub fn message(&self) -> (m: String)
        ensures
            m@ == missing_msg(self.field@),
    {
        let mut m = String::from_str("missing value for field '");
        m.append(self.field.as_str());
        m.append("'");
        m
    }
}

/// The collection content of a slot; an untouched slot holds no elements.
pub open spec fn slot_items<V>(s: SlotState<V>) -> Seq<V> {
    match s {
        SlotState::Many(v) => v@,
        _ => Seq::empty(),
    }
}

/// Whether a slot's shape is one the field's setters can produce: an
/// accumulator field's slot never holds a single value, and any other
/// field's slot never holds collection content.
pub open spec fn wf_slot<V>(f: FieldIr, s: SlotState<V>) -> bool {
    match f.each {
        Some(_) => !(s is One),
        None => !(s is Many),
    }
}

/// Whether a field generates an element setter with this name.
pub open spec fn elem_named(f: FieldIr, name: Seq<char>) -> bool {
    match f.each {
        Some(a) => a@ == name,
        None => false,
    }
}

/// Whether a field generates a bulk setter with this name: the setter is
/// named by the field and exists only when the alias differs from it.
pub open spec fn bulk_named(f: FieldIr, name: Seq<char>) -> bool {
    match f.each {
        Some(a) => a@ != f.name@ && f.name@ == name,
        None => false,
    }
}

/// Whether a field generates a plain setter with this name.
pub open spec fn plain_named(f: FieldIr, name: Seq<char>) -> bool {
    match f.each {
        Some(_) => false,
        None => f.name@ == name,
    }
}

/// The first field index matched by `p`, mirroring method resolution.
pub open spec fn first_match(fs: Seq<FieldIr>, p: spec_fn(FieldIr) -> bool) -> Option<int>
    decreases fs.len(),
{
    if fs.len() == 0 {
        None
    } else if p(fs[0]) {
        Some(0)
    } else {
        match first_match(fs.drop_first(), p) {
            Some(j) => Some(j + 1),
            None => None,
        }
    }
}

pub open spec fn elem_pred(name: Seq<char>) -> spec_fn(FieldIr) -> bool {
    |f: FieldIr| elem_named(f, name)
}

pub open spec fn bulk_pred(name: Seq<char>) -> spec_fn(FieldIr) -> bool {
    |f: FieldIr| bulk_named(f, name)
}

pub open spec fn plain_pred(name: Seq<char>) -> spec_fn(FieldIr) -> bool {
    |f: FieldIr| plain_named(f, name)
}

/// The slot written by an element setter call with this name, if the setter
/// exists.
pub open spec fn element_target(fs: Seq<FieldIr>, name: Seq<char>) -> Option<int> {
    first_match(fs, elem_pred(name))
}

/// The slot written by a bulk setter call with this name, if the setter
/// exists.
pub open spec fn bulk_target(fs: Seq<FieldIr>, name: Seq<char>) -> Option<int> {
    first_match(fs, bulk_pred(name))
}

/// The slot written by a plain setter call with this name, if the setter
/// exists.
pub open spec fn plain_target(fs: Seq<FieldIr>, name: Seq<char>) -> Option<int> {
    first_match(fs, plain_pred(name))
}

pub proof fn lemma_first_match_at(fs: Seq<FieldIr>, p: spec_fn(FieldIr) -> bool, i: int)
    requires
        0 <= i < fs.len(),
        p(fs[i]),
        forall|k: int| 0 <= k < i ==> !p(#[trigger] fs[k]),
    ensures
        first_match(fs, p) == Some(i),
    decreases i,
{
    if i > 0 {
        lemma_first_match_at(fs.drop_first(), p, i - 1);
    }
}

pub proof fn lemma_first_match_none(fs: Seq<FieldIr>, p: spec_fn(FieldIr) -> bool)
    requires
        forall|k: int| 0 <= k < fs.len() ==> !p(#[trigger] fs[k]),
    ensures
        first_match(fs, p) is None,
    decreases fs.len(),
{
    if fs.len() > 0 {
        lemma_first_match_none(fs.drop_first(), p);
    }
}

/// One field's generated setters and the invocation predicates agree: the
/// field generates an element, bulk or plain setter with a given name
/// exactly when the invocation of that shape and name finds it. In
/// particular, a bulk-style invocation under an alias that equals the
/// field's name finds nothing, since no bulk setter was generated.
pub proof fn lemma_setters_match_dispatch(f: FieldIr, name: Seq<char>)
    ensures
        elem_named(f, name) <==> exists|j: int|
            0 <= j < setters_of(f).len() && (#[trigger] setters_of(f)[j]).kind is Element
                && setters_of(f)[j].name@ == name,
        bulk_named(f, name) <==> exists|j: int|
            0 <= j < setters_of(f).len() && (#[trigger] setters_of(f)[j]).kind is Bulk
                && setters_of(f)[j].name@ == name,
        plain_named(f, name) <==> exists|j: int|
            0 <= j < setters_of(f).len() && (#[trigger] setters_of(f)[j]).kind is Plain
                && setters_of(f)[j].name@ == name,
{
    match f.each {
        Some(a) => {
            assert(setters_of(f)[0].kind is Element && setters_of(f)[0].name == a);
            if a@ != f.name@ {
                assert(setters_of(f)[1].kind is Bulk && setters_of(f)[1].name == f.name);
            }
        },
        None => {
            assert(setters_of(f)[0].kind is Plain && setters_of(f)[0].name == f.name);
        },
    }
}

/// Whether assembly fails at this field: only a required field without an
/// accumulator alias can be missing.
pub open spec fn missing_at<V>(f: FieldIr, s: SlotState<V>) -> bool {
    f.each is None && f.required && s is Unset
}

/// The first field, in declaration order, at which assembly fails.
pub open spec fn first_missing<V>(fs: Seq<FieldIr>, slots: Seq<SlotState<V>>) -> Option<int>
    decreases fs.len(),
{
    if fs.len() == 0 {
        None
    } else if missing_at(fs[0], slots[0]) {
        Some(0)
    } else {
        match first_missing(fs.drop_first(), slots.drop_first()) {
            Some(j) => Some(j + 1),
            None => None,
        }
    }
}

pub proof fn lemma_first_missing_at<V>(fs: Seq<FieldIr>, slots: Seq<SlotState<V>>, i: int)
    requires
        fs.len() <= slots.len(),
        0 <= i < fs.len(),
        missing_at(fs[i], slots[i]),
        forall|k: int| 0 <= k < i ==> !missing_at(#[trigger] fs[k], slots[k]),
    ensures
        first_missing(fs, slots) == Some(i),
    decreases i,
{
    if i > 0 {
        let fs1 = fs.drop_first();
        let slots1 = slots.drop_first();
        assert(fs1[i - 1] == fs[i]);
        assert(slots1[i - 1] == slots[i]);
        assert forall|k: int| 0 <= k < i - 1 implies !missing_at(#[trigger] fs1[k], slots1[k]) by {
            assert(fs1[k] == fs[k + 1]);
            assert(slots1[k] == slots[k + 1]);
            assert(!missing_at(fs[k + 1], slots[k + 1]));
        }
        lemma_first_missing_at(fs1, slots1, i - 1);
    }
}

pub proof fn lemma_first_missing_none<V>(fs: Seq<FieldIr>, slots: Seq<SlotState<V>>)
    requires
        fs.len() <= slots.len(),
        forall|k: int| 0 <= k < fs.len() ==> !missing_at(#[trigger] fs[k], slots[k]),
    ensures
        first_missing(fs, slots) is None,
    decreases fs.len(),
{
    if fs.len() > 0 {
        let fs1 = fs.drop_first();
        let slots1 = slots.drop_first();
        assert forall|k: int| 0 <= k < fs1.len() implies !missing_at(#[trigger] fs1[k], slots1[k]) by {
            assert(fs1[k] == fs[k + 1]);
            assert(slots1[k] == slots[k + 1]);
            assert(!missing_at(fs[k + 1], slots[k + 1]));
        }
        lemma_first_missing_none(fs1, slots1);
    }
}

pub proof fn lemma_first_missing_sound<V>(fs: Seq<FieldIr>, slots: Seq<SlotState<V>>)
    requires
        fs.len() <= slots.len(),
    ensures
        match first_missing(fs, slots) {
            Some(j) => 0 <= j < fs.len() && missing_at(fs[j], slots[j]),
            None => true,
        },
    decreases fs.len(),
{
    if fs.len() > 0 && !missing_at(fs[0], slots[0]) {
        let fs1 = fs.drop_first();
        let slots1 = slots.drop_first();
        lemma_first_missing_sound(fs1, slots1);
        match first_missing(fs1, slots1) {
            Some(j) => {
                assert(fs1[j] == fs[j + 1]);
                assert(slots1[j] == slots[j + 1]);
            },
            None => {},
        }
    }
}

/// Assembly never fails at an accumulator field: whatever the slots hold,
/// the first missing field is never one carrying an alias, since an
/// untouched accumulator yields the empty collection instead of an error.
pub proof fn lemma_accumulator_never_missing<V>(fs: Seq<FieldIr>, slots: Seq<SlotState<V>>, i: int)
    requires
        fs.len() <= slots.len(),
        0 <= i < fs.len(),
        fs[i].each is Some,
    ensures
        first_missing(fs, slots) != Some(i),
{
    lemma_first_missing_sound(fs, slots);
}

/// Assembly succeeds when every required, non-accumulator field's slot
/// holds a value: optional and accumulator fields never block it.
pub proof fn lemma_build_succeeds_when_required_set<V>(fs: Seq<FieldIr>, slots: Seq<SlotState<V>>)
    requires
        fs.len() <= slots.len(),
        forall|i: int|
            0 <= i < fs.len() && (#[trigger] fs[i]).each is None && fs[i].required ==> !(slots[i]
                is Unset),
    ensures
        first_missing(fs, slots) is None,
{
    assert forall|k: int| 0 <= k < fs.len() implies !missing_at(#[trigger] fs[k], slots[k]) by {
        assert(fs[k].each is None && fs[k].required ==> !(slots[k] is Unset));
    }
    lemma_first_missing_none(fs, slots);
}

/// Assembly with a required, non-accumulator field left unset fails; when
/// no earlier field is missing, the failure names exactly that field.
pub proof fn lemma_missing_required_field_fails<V>(
    fs: Seq<FieldIr>,
    slots: Seq<SlotState<V>>,
    i: int,
)
    requires
        fs.len() <= slots.len(),
        0 <= i < fs.len(),
        missing_at(fs[i], slots[i]),
        forall|k: int| 0 <= k < i ==> !missing_at(#[trigger] fs[k], slots[k]),
    ensures
        first_missing(fs, slots) == Some(i),
{
    lemma_first_missing_at(fs, slots, i);
}

/// When a field's alias equals its name and no other field shares that
/// name, no bulk setter with that name exists: a bulk-style invocation
/// finds no method to call.
pub proof fn lemma_bulk_call_does_not_exist(fs: Seq<FieldIr>, i: int)
    requires
        0 <= i < fs.len(),
        fs[i].each matches Some(a) && a@ == fs[i].name@,
        forall|k: int| 0 <= k < fs.len() && k != i ==> (#[trigger] fs[k]).name@ != fs[i].name@,
    ensures
        bulk_target(fs, fs[i].name@) is None,
{
    assert forall|k: int| 0 <= k < fs.len() implies !(bulk_pred(fs[i].name@)(#[trigger] fs[k])) by {
        if k != i {
            assert(fs[k].name@ != fs[i].name@);
        }
    }
    lemma_first_match_none(fs, bulk_pred(fs[i].name@));
}

/// Whether `e` is the assembled value of field `f` from slot `s`: an
/// accumulator field yields exactly its accumulated elements (empty when
/// untouched), a required field yields its stored value, and an optional
/// field yields its stored value or absence, read without being cleared.
pub open spec fn entry_matches<V: Clone>(f: FieldIr, s: SlotState<V>, e: Entry<V>) -> bool {
    &&& e.name == f.name
    &&& match f.each {
        Some(_) => match e.value {
            FieldValue::Many(v) => v@ == slot_items(s),
            _ => false,
        },
        None => if f.required {
            match s {
                SlotState::One(x) => e.value == FieldValue::One(x),
                _ => false,
            }
        } else {
            match s {
                SlotState::One(x) => match e.value {
                    FieldValue::Maybe(Some(y)) => vstd::pervasive::cloned(x, y),
                    _ => false,
                },
                SlotState::Unset => e.value == FieldValue::Maybe(None::<V>),
                SlotState::Many(_) => false,
            }
        },
    }
}

/// A slot's state after assembly ran past it: required and accumulator
/// slots are consumed, optional slots are left as they were.
pub open spec fn residue<V>(f: FieldIr, s: SlotState<V>) -> SlotState<V> {
    if f.each is Some || f.required {
        SlotState::Unset
    } else {
        s
    }
}

/// The index at which assembly stops consuming slots: the first missing
/// field, or the end.
pub open spec fn stop_index<V>(fs: Seq<FieldIr>, slots: Seq<SlotState<V>>) -> int {
    match first_missing(fs, slots) {
        Some(j) => j,
        None => fs.len() as int,
    }
}

/// Replaces the slot at `i`, returning what it held.
fn take_slot<V>(slots: &mut Vec<SlotState<V>>, i: usize) -> (s: SlotState<V>)
    requires
        i < old(slots)@.len(),
    ensures
        s == old(slots)@[i as int],
        final(slots)@ == old(slots)@.update(i as int, SlotState::Unset),
{
    let mut tmp = SlotState::Unset;
    core::mem::swap(&mut tmp, &mut slots[i]);
    tmp
}

/// Stores `s` in the slot at `i`.
fn put_slot<V>(slots: &mut Vec<SlotState<V>>, i: usize, s: SlotState<V>)
    requires
        i < old(slots)@.len(),
    ensures
        final(slots)@ == old(slots)@.update(i as int, s),
{
    let mut tmp = s;
    core::mem::swap(&mut tmp, &mut slots[i]);
}

fn is_elem_named(f: &FieldIr, name: &String) -> (b: bool)
    ensures
        b == elem_named(*f, name@),
{
    match &f.each {
        Some(a) => a.eq(name),
        None => false,
    }
}

fn is_bulk_named(f: &FieldIr, name: &String) -> (b: bool)
    ensures
        b == bulk_named(*f, name@),
{
    match &f.each {
        Some(a) => !a.eq(&f.name) && f.name.eq(name),
        None => false,
    }
}

fn is_plain_named(f: &FieldIr, name: &String) -> (b: bool)
    ensures
        b == plain_named(*f, name@),
{
    match &f.each {
        Some(_) => false,
        None => f.name.eq(name),
    }
}

/// A builder instance: the classified fields it was generated from, and one
/// slot per field.
pub struct BuilderInstance<V> {
    pub fields: Vec<FieldIr>,
    pub slots: Vec<SlotState<V>>,
}

impl<V> BuilderInstance<V> {
    /// Every slot shape is one the field's setters can produce.
    pub open spec fn wf(self) -> bool {
        &&& self.slots@.len() == self.fields@.len()
        &&& forall|i: int|
            0 <= i < self.fields@.len() ==> wf_slot(self.fields@[i], #[trigger] self.slots@[i])
    }

    /// The factory method on the target type: a fresh builder with every
    /// slot absent.
    pub fn new(ir: Ir) -> (b: BuilderInstance<V>)
        ensures
            b.fields@ == ir.fields@,
            b.slots@.len() == ir.fields@.len(),
            forall|i: int| 0 <= i < b.slots@.len() ==> #[trigger] b.slots@[i] is Unset,
            b.wf(),
    {
        let n = ir.fields.len();
        let mut slots: Vec<SlotState<V>> = Vec::new();
        let mut i: usize = 0;
        while i < n
            invariant
                i <= n,
                slots@.len() == i,
                forall|k: int| 0 <= k < i ==> #[trigger] slots@[k] is Unset,
            decreases n - i,
        {
            slots.push(SlotState::Unset);
            i += 1;
        }
        BuilderInstance { fields: ir.fields, slots }
    }

    /// Invokes the element setter named `setter`, appending `item` to the
    /// targeted field's collection and initializing it on first use.
    /// Returns whether such a setter exists.
    pub fn call_element(&mut self, setter: &String, item: V) -> (found: bool)
        requires
            old(self).wf(),
        ensures
            final(self).wf(),
            final(self).fields@ == old(self).fields@,
            final(self).slots@.len() == old(self).slots@.len(),
            found == (element_target(old(self).fields@, setter@) is Some),
            match element_target(old(self).fields@, setter@) {
                Some(j) => {
                    &&& final(self).slots@[j] is Many
                    &&& slot_items(final(self).slots@[j]) == slot_items(old(self).slots@[j]).push(
                        item,
                    )
                    &&& forall|k: int|
                        0 <= k < old(self).slots@.len() && k != j ==> final(self).slots@[k] == old(
                            self,
                        ).slots@[k]
                },
                None => final(self).slots@ == old(self).slots@,
            },
    {
        let mut i: usize = 0;
        while i < self.fields.len()
            invariant
                *self == *old(self),
                old(self).wf(),
                i <= self.fields@.len(),
                forall|k: int| 0 <= k < i ==> !elem_named(#[trigger] self.fields@[k], setter@),
            decreases self.fields@.len() - i,
        {
            if is_elem_named(&self.fields[i], setter) {
                proof {
                    lemma_first_match_at(self.fields@, elem_pred(setter@), i as int);
                }
                let taken = take_slot(&mut self.slots, i);
                let items = match taken {
                    SlotState::Many(v) => v,
                    _ => Vec::new(),
                };
                let mut items = items;
                items.push(item);
                put_slot(&mut self.slots, i, SlotState::Many(items));
                return true;
            }
            i += 1;
        }
        proof {
            lemma_first_match_none(self.fields@, elem_pred(setter@));
        }
        false
    }

    /// Invokes the bulk setter named `setter`, replacing any previously
    /// accumulated content of the targeted field with `values` outright.
    /// Returns whether such a setter exists; when the accumulator alias
    /// equals the field's name, it never does.
    pub fn call_bulk(&mut self, setter: &String, values: Vec<V>) -> (found: bool)
        requires
            old(self).wf(),
        ensures
            final(self).wf(),
            final(self).fields@ == old(self).fields@,
            final(self).slots@.len() == old(self).slots@.len(),
            found == (bulk_target(old(self).fields@, setter@) is Some),
            match bulk_target(old(self).fields@, setter@) {
                Some(j) => {
                    &&& final(self).slots@[j] is Many
                    &&& slot_items(final(self).slots@[j]) == values@
                    &&& forall|k: int|
                        0 <= k < old(self).slots@.len() && k != j ==> final(self).slots@[k] == old(
                            self,
                        ).slots@[k]
                },
                None => final(self).slots@ == old(self).slots@,
            },
    {
        let mut i: usize = 0;
        while i < self.fields.len()
            invariant
                *self == *old(self),
                old(self).wf(),
                i <= self.fields@.len(),
                forall|k: int| 0 <= k < i ==> !bulk_named(#[trigger] self.fields@[k], setter@),
            decreases self.fields@.len() - i,
        {
            if is_bulk_named(&self.fields[i], setter) {
                proof {
                    lemma_first_match_at(self.fields@, bulk_pred(setter@), i as int);
                }
                put_slot(&mut self.slots, i, SlotState::Many(values));
                return true;
            }
            i += 1;
        }
        proof {
            lemma_first_match_none(self.fields@, bulk_pred(setter@));
        }
        false
    }

    /// Invokes the plain setter named `setter`, storing `value` and
    /// replacing any prior value. Returns whether such a setter exists.
    pub fn call_plain(&mut self, setter: &String, value: V) -> (found: bool)
        requires
            old(self).wf(),
        ensures
            final(self).wf(),
            final(self).fields@ == old(self).fields@,
            final(self).slots@.len() == old(self).slots@.len(),
            found == (plain_target(old(self).fields@, setter@) is Some),
            match plain_target(old(self).fields@, setter@) {
                Some(j) => {
                    &&& final(self).slots@[j] == SlotState::One(value)
                    &&& forall|k: int|
                        0 <= k < old(self).slots@.len() && k != j ==> final(self).slots@[k] == old(
                            self,
                        ).slots@[k]
                },
                None => final(self).slots@ == old(self).slots@,
            },
    {
        let mut i: usize = 0;
        while i < self.fields.len()
            invariant
                *self == *old(self),
                old(self).wf(),
                i <= self.fields@.len(),
                forall|k: int| 0 <= k < i ==> !plain_named(#[trigger] self.fields@[k], setter@),
            decreases self.fields@.len() - i,
        {
            if is_plain_named(&self.fields[i], setter) {
                proof {
                    lemma_first_match_at(self.fields@, plain_pred(setter@), i as int);
                }
                put_slot(&mut self.slots, i, SlotState::One(value));
                return true;
            }
            i += 1;
        }
        proof {
            lemma_first_match_none(self.fields@, plain_pred(setter@));
        }
        false
    }

}

impl<V: Clone> BuilderInstance<V> {
    /// The validating assembly method. Scans the fields in declaration
    /// order: the first required, non-accumulator field whose slot is absent
    /// aborts assembly with an error naming it, and slots consumed before
    /// that point are discarded. Otherwise assembly succeeds: required
    /// fields hand over their value, accumulator fields hand over their
    /// collection (empty when untouched), and optional fields are read
    /// without being cleared.
    pub fn build(&mut self) -> (r: Result<RecordValue<V>, BuildError>)
        requires
            old(self).wf(),
        ensures
            final(self).wf(),
            final(self).fields@ == old(self).fields@,
            final(self).slots@.len() == old(self).slots@.len(),
            (r is Err) == (first_missing(old(self).fields@, old(self).slots@) is Some),
            match first_missing(old(self).fields@, old(self).slots@) {
                Some(j) => r matches Err(e) && e.field == old(self).fields@[j].name,
                None => true,
            },
            match r {
                Ok(rec) => {
                    &&& rec.entries@.len() == old(self).fields@.len()
                    &&& forall|i: int|
                        0 <= i < old(self).fields@.len() ==> entry_matches(
                            old(self).fields@[i],
                            old(self).slots@[i],
                            #[trigger] rec.entries@[i],
                        )
                },
                Err(_) => true,
            },
            forall|i: int|
                0 <= i < old(self).slots@.len() ==> final(self).slots@[i] == (
                if i < stop_index(old(self).fields@, old(self).slots@) {
                    residue(old(self).fields@[i], old(self).slots@[i])
                } else {
                    old(self).slots@[i]
                }),
    {
        let ghost fs = old(self).fields@;
        let ghost slots0 = old(self).slots@;
        proof {
            assert forall|k: int| 0 <= k < fs.len() implies wf_slot(fs[k], #[trigger] slots0[k]) by {
                assert(wf_slot(old(self).fields@[k], old(self).slots@[k]));
            }
        }
        let mut entries: Vec<Entry<V>> = Vec::new();
        let n = self.fields.len();
        let mut i: usize = 0;
        while i < n
            invariant
                fs == old(self).fields@,
                slots0 == old(self).slots@,
                forall|k: int| 0 <= k < fs.len() ==> wf_slot(fs[k], #[trigger] slots0[k]),
                n == fs.len(),
                i <= n,
                self.fields@ == fs,
                self.slots@.len() == slots0.len(),
                slots0.len() == fs.len(),
                entries@.len() == i,
                forall|k: int| 0 <= k < i ==> !missing_at(#[trigger] fs[k], #[trigger] slots0[k]),
                forall|k: int|
                    0 <= k < i ==> entry_matches(fs[k], slots0[k], #[trigger] entries@[k]),
                forall|k: int|
                    0 <= k < i ==> #[trigger] self.slots@[k] == residue(fs[k], slots0[k]),
                forall|k: int| i <= k < slots0.len() ==> #[trigger] self.slots@[k] == slots0[k],
            decreases n - i,
        {
            let ghost ii = i as int;
            proof {
                assert(self.slots@[ii] == slots0[ii]);
                assert(wf_slot(fs[ii], slots0[ii]));
            }
            let is_acc = self.fields[i].each.is_some();
            let required = self.fields[i].required;
            if is_acc {
                let taken = take_slot(&mut self.slots, i);
                let items = match taken {
                    SlotState::Many(v) => v,
                    _ => Vec::new(),
                };
                let name = self.fields[i].name.clone();
                entries.push(Entry { name, value: FieldValue::Many(items) });
                proof {
                    assert(entry_matches(fs[ii], slots0[ii], entries@[ii]));
                }
            } else if required {
                let taken = take_slot(&mut self.slots, i);
                match taken {
                    SlotState::One(x) => {
                        let name = self.fields[i].name.clone();
                        entries.push(Entry { name, value: FieldValue::One(x) });
                        proof {
                            assert(entry_matches(fs[ii], slots0[ii], entries@[ii]));
                        }
                    },
                    SlotState::Unset => {
                        proof {
                            lemma_first_missing_at(fs, slots0, i as int);
                            assert forall|k: int|
                                0 <= k < self.fields@.len() implies wf_slot(
                                self.fields@[k],
                                #[trigger] self.slots@[k],
                            ) by {
                                if k < ii {
                                    assert(self.slots@[k] == residue(fs[k], slots0[k]));
                                    assert(wf_slot(fs[k], slots0[k]));
                                } else if k == ii {
                                    assert(self.slots@[k] is Unset);
                                } else {
                                    assert(self.slots@[k] == slots0[k]);
                                    assert(wf_slot(fs[k], slots0[k]));
                                }
                            }
                        }
                        return Err(BuildError { field: self.fields[i].name.clone() });
                    },
                    SlotState::Many(_) => {
                        return vstd::pervasive::unreached();
                    },
                }
            } else {
                let v: Option<V> = match &self.slots[i] {
                    SlotState::One(x) => Some(x.clone()),
                    SlotState::Unset => None,
                    SlotState::Many(_) => vstd::pervasive::unreached(),
                };
                let name = self.fields[i].name.clone();
                entries.push(Entry { name, value: FieldValue::Maybe(v) });
                proof {
                    assert(entry_matches(fs[ii], slots0[ii], entries@[ii]));
                }
            }
            i += 1;
        }
        proof {
            lemma_first_missing_none(fs, slots0);
            assert forall|k: int|
                0 <= k < self.fields@.len() implies wf_slot(
                self.fields@[k],
                #[trigger] self.slots@[k],
            ) by {
                assert(self.slots@[k] == residue(fs[k], slots0[k]));
                assert(wf_slot(fs[k], slots0[k]));
            }
        }
        Ok(RecordValue { entries })
    }
}

} // verus!
