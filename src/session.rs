//! How a generated builder behaves at run time: each slot of the auxiliary
//! value is absent or present, setters and appenders make it present, and
//! the finalizer fails exactly when a required slot is still absent.
//!
//! Values are generic: `Single` holds the value of a plain or optional field,
//! `List` the elements of a collection field.

use vstd::prelude::*;
use crate::builder::BuilderPlan;
use crate::classify::WrapperKind;

verus! {

/// A value stored in a slot.
pub enum FieldValue<V> {
    Single(V),
    List(Vec<V>),
}

/// The mathematical view of a stored value.
pub enum ValueModel<V> {
    Single(V),
    List(Seq<V>),
}

/// The view of a stored value.
pub open spec fn value_view<V>(v: FieldValue<V>) -> ValueModel<V> {
    match v {
        FieldValue::Single(x) => ValueModel::Single(x),
        FieldValue::List(l) => ValueModel::List(l@),
    }
}

/// The view of a slot.
pub open spec fn slot_view<V>(s: Option<FieldValue<V>>) -> Option<ValueModel<V>> {
    match s {
        Some(v) => Some(value_view(v)),
        None => None,
    }
}

/// Whether a value has the shape that a field of kind `k` stores.
pub open spec fn fits<V>(k: WrapperKind, v: ValueModel<V>) -> bool {
    (k is Collection) == (v is List)
}

/// The slot after an element is appended: pushed onto a present list, or a
/// list of that one element where the slot was absent.
pub open spec fn appended<V>(s: Option<ValueModel<V>>, x: V) -> Option<ValueModel<V>> {
    match s {
        Some(ValueModel::List(l)) => Some(ValueModel::List(l.push(x))),
        _ => Some(ValueModel::List(seq![x])),
    }
}

/// Whether the finalizer succeeds: every slot that is not optional is present.
pub open spec fn complete<V>(slots: Seq<Option<ValueModel<V>>>, optional: Seq<bool>) -> bool {
    forall|i: int| 0 <= i < slots.len() ==> optional[i] || (#[trigger] slots[i]) is Some
}

/// The finalizer's error: the first field that is required and has no value.
#[derive(Clone, Copy, Debug, PartialEq, Eq, Structural)]
pub struct MissingField {
    pub index: usize,
}

/// The auxiliary value of a builder while it is being filled in.
pub struct BuilderSession<V> {
    kinds: Vec<WrapperKind>,
    slots: Vec<Option<FieldValue<V>>>,
}

impl<V> BuilderSession<V> {
    /// The slots, in field order.
    pub closed spec fn slots_view(&self) -> Seq<Option<ValueModel<V>>> {
        self.slots@.map_values(|s: Option<FieldValue<V>>| slot_view(s))
    }

    /// The kind of each field.
    pub closed spec fn kinds_view(&self) -> Seq<WrapperKind> {
        self.kinds@
    }

    /// Which fields may stay absent when the record is assembled.
    pub open spec fn optional_view(&self) -> Seq<bool> {
        self.kinds_view().map_values(|k: WrapperKind| k is Optional)
    }

    /// One slot per field, and each present slot holds a value of its field's shape.
    pub closed spec fn wf(&self) -> bool {
        &&& self.kinds@.len() == self.slots@.len()
        &&& forall|i: int|
            0 <= i < self.slots@.len() ==> match #[trigger] self.slots_view()[i] {
                Some(v) => fits(self.kinds@[i], v),
                None => true,
            }
    }

    /// The auxiliary value that the builder constructor returns: every slot
    /// absent, except an empty list for a collection field that starts empty.
    pub fn new(plan: &BuilderPlan) -> (r: Self)
        ensures
            r.wf(),
            r.kinds_view().len() == plan.fields@.len(),
            r.slots_view().len() == plan.fields@.len(),
            forall|i: int|
                0 <= i < plan.fields@.len() ==> {
                    &&& r.kinds_view()[i] == plan.fields@[i].kind
                    &&& r.slots_view()[i] == if plan.fields@[i].kind is Collection
                        && plan.fields@[i].starts_empty {
                        Some(ValueModel::<V>::List(Seq::empty()))
                    } else {
                        None
                    }
                },
    {
        let mut kinds: Vec<WrapperKind> = Vec::new();
        let mut slots: Vec<Option<FieldValue<V>>> = Vec::new();
        let mut i: usize = 0;
        while i < plan.fields.len()
            invariant
                i <= plan.fields@.len(),
                kinds@.len() == i,
                slots@.len() == i,
                forall|j: int|
                    0 <= j < i ==> {
                        &&& kinds@[j] == plan.fields@[j].kind
                        &&& slot_view(#[trigger] slots@[j]) == if plan.fields@[j].kind is Collection
                            && plan.fields@[j].starts_empty {
                            Some(ValueModel::<V>::List(Seq::empty()))
                        } else {
                            None
                        }
                    },
            decreases plan.fields@.len() - i,
        {
            let f = &plan.fields[i];
            let starts_empty = match f.kind {
                WrapperKind::Collection { .. } => f.starts_empty,
                _ => false,
            };
            kinds.push(f.kind);
            if starts_empty {
                let empty: Vec<V> = Vec::new();
                assert(empty@ =~= Seq::<V>::empty());
                slots.push(Some(FieldValue::List(empty)));
            } else {
                slots.push(None);
            }
            i = i + 1;
        }
        let r = BuilderSession { kinds, slots };
        assert forall|j: int| 0 <= j < r.slots@.len() implies #[trigger] r.slots_view()[j]
            == slot_view(r.slots@[j]) by {}
        assert forall|j: int| 0 <= j < plan.fields@.len() implies {
            &&& r.kinds_view()[j] == plan.fields@[j].kind
            &&& r.slots_view()[j] == if plan.fields@[j].kind is Collection
                && plan.fields@[j].starts_empty {
                Some(ValueModel::<V>::List(Seq::empty()))
            } else {
                None
            }
        } by {
            assert(r.slots_view()[j] == slot_view(r.slots@[j]));
        }
        assert forall|j: int| 0 <= j < r.slots@.len() implies match #[trigger] r.slots_view()[j] {
            Some(v) => fits(r.kinds@[j], v),
            None => true,
        } by {
            assert(r.slots_view()[j] == slot_view(r.slots@[j]));
        }
        r
    }

    /// The number of fields.
    pub fn len(&self) -> (r: usize)
        ensures
            r == self.slots_view().len(),
    {
        self.slots.len()
    }

    /// A setter: stores `v` as the value of field `i`, replacing what was there.
    pub fn set(&mut self, i: usize, v: FieldValue<V>)
        requires
            old(self).wf(),
            i < old(self).slots_view().len(),
            fits(old(self).kinds_view()[i as int], value_view(v)),
        ensures
            final(self).wf(),
            final(self).kinds_view() == old(self).kinds_view(),
            final(self).slots_view() == old(self).slots_view().update(i as int, Some(value_view(v))),
    {
        let ghost v_model = value_view(v);
        self.slots.set(i, Some(v));
        assert(self.slots_view() =~= old(self).slots_view().update(i as int, Some(v_model)));
    }

    /// An appender: adds `x` at the end of the list of collection field `i`.
    pub fn append(&mut self, i: usize, x: V)
        requires
            old(self).wf(),
            i < old(self).slots_view().len(),
            old(self).kinds_view()[i as int] is Collection,
        ensures
            final(self).wf(),
            final(self).kinds_view() == old(self).kinds_view(),
            final(self).slots_view() == old(self).slots_view().update(
                i as int,
                appended(old(self).slots_view()[i as int], x),
            ),
    {
        let ghost before = self.slots_view();
        let mut slot: Option<FieldValue<V>> = None;
        self.slots.set_and_swap(i, &mut slot);
        let next = match slot {
            Some(FieldValue::List(mut l)) => {
                l.push(x);
                FieldValue::List(l)
            },
            _ => {
                let mut l: Vec<V> = Vec::new();
                l.push(x);
                assert(l@ =~= seq![x]);
                FieldValue::List(l)
            },
        };
        assert(before[i as int] == slot_view(slot));
        self.slots.set(i, Some(next));
        assert(self.slots_view() =~= before.update(i as int, appended(before[i as int], x)));
    }

    /// The finalizer: reads every slot without changing it, or names the
    /// first required field that has no value.
    pub fn build(&self) -> (r: Result<&Vec<Option<FieldValue<V>>>, MissingField>)
        requires
            self.wf(),
        ensures
            r is Ok <==> complete(self.slots_view(), self.optional_view()),
            match r {
                Ok(values) => values@.map_values(|s: Option<FieldValue<V>>| slot_view(s))
                    == self.slots_view(),
                Err(e) => {
                    &&& e.index < self.slots_view().len()
                    &&& !self.optional_view()[e.index as int]
                    &&& self.slots_view()[e.index as int] is None
                    &&& forall|j: int|
                        0 <= j < e.index ==> self.optional_view()[j]
                            || (#[trigger] self.slots_view()[j]) is Some
                },
            },
    {
        let mut i: usize = 0;
        while i < self.slots.len()
            invariant
                self.wf(),
                i <= self.slots@.len(),
                forall|j: int|
                    0 <= j < i ==> self.optional_view()[j] || (#[trigger] self.slots_view()[j]) is Some,
            decreases self.slots@.len() - i,
        {
            let optional = match self.kinds[i] {
                WrapperKind::Optional { .. } => true,
                _ => false,
            };
            if !optional && self.slots[i].is_none() {
                assert(self.slots_view()[i as int] == slot_view(self.slots@[i as int]));
                return Err(MissingField { index: i });
            }
            assert(self.slots_view()[i as int] == slot_view(self.slots@[i as int]));
            i = i + 1;
        }
        Ok(&self.slots)
    }
}

/// The slots after a sequence of setter calls, each a field index and a value.
pub open spec fn applied<V>(s: Seq<Option<ValueModel<V>>>, calls: Seq<(int, ValueModel<V>)>) -> Seq<
    Option<ValueModel<V>>,
>
    decreases calls.len(),
{
    if calls.len() == 0 {
        s
    } else {
        applied(s, calls.drop_last()).update(calls.last().0, Some(calls.last().1))
    }
}

/// A slot after a sequence of appender calls.
pub open spec fn appended_all<V>(slot: Option<ValueModel<V>>, xs: Seq<V>) -> Option<ValueModel<V>>
    decreases xs.len(),
{
    if xs.len() == 0 {
        slot
    } else {
        appended(appended_all(slot, xs.drop_last()), xs.last())
    }
}

/// Some call of the sequence sets field `i`.
pub open spec fn sets_field<V>(calls: Seq<(int, ValueModel<V>)>, i: int) -> bool {
    exists|j: int| 0 <= j < calls.len() && (#[trigger] calls[j]).0 == i
}

/// Setter calls keep the number of slots.
pub proof fn lemma_applied_len<V>(s: Seq<Option<ValueModel<V>>>, calls: Seq<(int, ValueModel<V>)>)
    requires
        forall|j: int| 0 <= j < calls.len() ==> 0 <= (#[trigger] calls[j]).0 < s.len(),
    ensures
        applied(s, calls).len() == s.len(),
    decreases calls.len(),
{
    if calls.len() > 0 {
        let rest = calls.drop_last();
        assert forall|j: int| 0 <= j < rest.len() implies 0 <= (#[trigger] rest[j]).0 < s.len() by {
            assert(rest[j] == calls[j]);
        }
        lemma_applied_len(s, rest);
        assert(calls[calls.len() - 1] == calls.last());
    }
}

/// Setter calls leave a slot present exactly
/// where it was present before or some call set it.
pub proof fn lemma_applied_presence<V>(
    s: Seq<Option<ValueModel<V>>>,
    calls: Seq<(int, ValueModel<V>)>,
    i: int,
)
    requires
        0 <= i < s.len(),
        forall|j: int| 0 <= j < calls.len() ==> 0 <= (#[trigger] calls[j]).0 < s.len(),
    ensures
        applied(s, calls)[i] is Some <==> (s[i] is Some || sets_field(calls, i)),
        !sets_field(calls, i) ==> applied(s, calls)[i] == s[i],
    decreases calls.len(),
{
    lemma_applied_len(s, calls);
    if calls.len() > 0 {
        let rest = calls.drop_last();
        assert forall|j: int| 0 <= j < rest.len() implies 0 <= (#[trigger] rest[j]).0 < s.len() by {
            assert(rest[j] == calls[j]);
        }
        lemma_applied_presence(s, rest, i);
        lemma_applied_len(s, rest);
        if sets_field(rest, i) {
            let j = choose|j: int| 0 <= j < rest.len() && (#[trigger] rest[j]).0 == i;
            assert(calls[j] == rest[j]);
        }
        if sets_field(calls, i) && calls.last().0 != i {
            let j = choose|j: int| 0 <= j < calls.len() && (#[trigger] calls[j]).0 == i;
            assert(rest[j] == calls[j]);
        }
        assert(calls[calls.len() - 1] == calls.last());
    }
}

/// On a record whose fields are all required and start absent, the finalizer
/// succeeds after a sequence of setter calls exactly when every field's
/// setter was called at least once.
pub proof fn lemma_finalize_needs_every_setter<V>(n: nat, calls: Seq<(int, ValueModel<V>)>)
    requires
        forall|j: int| 0 <= j < calls.len() ==> 0 <= (#[trigger] calls[j]).0 < n,
    ensures
        complete(
            applied(Seq::new(n, |i: int| None::<ValueModel<V>>), calls),
            Seq::new(n, |i: int| false),
        ) <==> forall|i: int| 0 <= i < n ==> sets_field(calls, i),
{
    let s = Seq::new(n, |i: int| None::<ValueModel<V>>);
    let t = applied(s, calls);
    let optional = Seq::new(n, |i: int| false);
    lemma_applied_len(s, calls);
    assert forall|i: int| 0 <= i < n implies (#[trigger] t[i] is Some <==> sets_field(calls, i)) by {
        lemma_applied_presence(s, calls, i);
    }
    if complete(t, optional) {
        assert forall|i: int| 0 <= i < n implies sets_field(calls, i) by {
            assert(optional[i] || t[i] is Some);
        }
    }
}

/// An optional field that starts absent is absent after a sequence of setter
/// calls exactly when none of them set it, and whatever it holds never
/// decides whether the finalizer succeeds.
pub proof fn lemma_optional_never_blocks<V>(
    s: Seq<Option<ValueModel<V>>>,
    optional: Seq<bool>,
    calls: Seq<(int, ValueModel<V>)>,
    i: int,
    other: Option<ValueModel<V>>,
)
    requires
        0 <= i < s.len(),
        optional.len() == s.len(),
        optional[i],
        s[i] is None,
        forall|j: int| 0 <= j < calls.len() ==> 0 <= (#[trigger] calls[j]).0 < s.len(),
    ensures
        applied(s, calls)[i] is None <==> !sets_field(calls, i),
        complete(applied(s, calls).update(i, other), optional) == complete(
            applied(s, calls),
            optional,
        ),
{
    lemma_applied_presence(s, calls, i);
    lemma_applied_len(s, calls);
    let t = applied(s, calls);
    let u = t.update(i, other);
    assert forall|k: int| 0 <= k < t.len() && k != i implies u[k] == t[k] by {}
    if complete(t, optional) {
        assert forall|k: int| 0 <= k < u.len() implies optional[k] || (#[trigger] u[k]) is Some by {
            assert(optional[k] || t[k] is Some);
        }
    }
    if complete(u, optional) {
        assert forall|k: int| 0 <= k < t.len() implies optional[k] || (#[trigger] t[k]) is Some by {
            assert(optional[k] || u[k] is Some);
        }
    }
}

/// Calling the appender once for each element of `xs`, from the empty list
/// that the constructor puts in place, yields exactly `xs`, in call order;
/// from an absent slot it yields the same, once at least one call was made.
pub proof fn lemma_appends_in_order<V>(xs: Seq<V>)
    ensures
        appended_all(Some(ValueModel::List(Seq::empty())), xs) == Some(ValueModel::List(xs)),
        xs.len() > 0 ==> appended_all(None, xs) == Some(ValueModel::List(xs)),
    decreases xs.len(),
{
    if xs.len() == 0 {
        assert(xs =~= Seq::empty());
    } else {
        let rest = xs.drop_last();
        lemma_appends_in_order(rest);
        assert(rest.push(xs.last()) =~= xs);
        if rest.len() > 0 {
            assert(appended_all(None, rest) == Some(ValueModel::List(rest)));
        } else {
            assert(seq![xs.last()] =~= xs);
        }
    }
}

/// The slots after setting fields `0..k` in order to `vals`.
proof fn lemma_round_trip_prefix<V>(
    s: Seq<Option<ValueModel<V>>>,
    vals: Seq<ValueModel<V>>,
    k: int,
)
    requires
        s.len() == vals.len(),
        0 <= k <= vals.len(),
    ensures
        applied(s, Seq::new(vals.len(), |i: int| (i, vals[i])).take(k)) =~= Seq::new(
            s.len(),
            |i: int|
                if i < k {
                    Some(vals[i])
                } else {
                    s[i]
                },
        ),
    decreases k,
{
    let calls = Seq::new(vals.len(), |i: int| (i, vals[i]));
    if k > 0 {
        lemma_round_trip_prefix(s, vals, k - 1);
        assert(calls.take(k).drop_last() =~= calls.take(k - 1));
    }
}

/// Setting every field once, in order, then finalizing gives back exactly
/// the values that were set, whichever fields are optional.
pub proof fn lemma_round_trip<V>(
    s: Seq<Option<ValueModel<V>>>,
    vals: Seq<ValueModel<V>>,
    optional: Seq<bool>,
)
    requires
        s.len() == vals.len(),
        optional.len() == vals.len(),
    ensures
        applied(s, Seq::new(vals.len(), |i: int| (i, vals[i]))) == vals.map_values(
            |v: ValueModel<V>| Some(v),
        ),
        complete(applied(s, Seq::new(vals.len(), |i: int| (i, vals[i]))), optional),
{
    let calls = Seq::new(vals.len(), |i: int| (i, vals[i]));
    lemma_round_trip_prefix(s, vals, vals.len() as int);
    assert(calls.take(vals.len() as int) =~= calls);
    assert(applied(s, calls) =~= vals.map_values(|v: ValueModel<V>| Some(v)));
}

} // verus!
