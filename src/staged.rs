use vstd::prelude::*;
use crate::builder::{missing_field_message, missing_message, BuilderPlan, PlannedField};

verus! {

/// A value held for one field: a single value, or the list that a collected
/// field accumulates.
pub enum FieldValue<T> {
    One(T),
    Many(Vec<T>),
}

pub enum ValueModel<T> {
    One(T),
    Many(Seq<T>),
}

impl<T> FieldValue<T> {
    pub open spec fn model(self) -> ValueModel<T> {
        match self {
            FieldValue::One(v) => ValueModel::One(v),
            FieldValue::Many(l) => ValueModel::Many(l@),
        }
    }
}

pub open spec fn slot_model<T>(s: Option<FieldValue<T>>) -> Option<ValueModel<T>> {
    match s {
        Some(v) => Some(v.model()),
        None => None,
    }
}

/// A staged value under construction, run against a builder plan: one slot
/// per field, each absent until one of the field's setters runs.
pub struct Staged<T> {
    slots: Vec<Option<FieldValue<T>>>,
}

impl<T> View for Staged<T> {
    type V = Seq<Option<ValueModel<T>>>;

    closed spec fn view(&self) -> Seq<Option<ValueModel<T>>> {
        self.slots@.map_values(|s: Option<FieldValue<T>>| slot_model(s))
    }
}

/// Every slot absent.
pub open spec fn fresh<T>(n: nat) -> Seq<Option<ValueModel<T>>> {
    Seq::new(n, |i: int| None)
}

/// The list that an append leaves: the item after what was collected, or
/// the item alone where nothing was.
pub open spec fn appended<T>(slot: Option<ValueModel<T>>, item: T) -> Seq<T> {
    match slot {
        Some(ValueModel::Many(l)) => l.push(item),
        _ => seq![item],
    }
}

/// Whether slots suit a plan: one per field, and a field with an appender
/// never holds a single value.
pub open spec fn slots_fit<T>(fields: Seq<PlannedField>, slots: Seq<Option<ValueModel<T>>>) -> bool {
    &&& slots.len() == fields.len()
    &&& forall|i: int|
        0 <= i < fields.len() && !(fields[i].directive is Plain) ==> !(#[trigger] slots[i] matches Some(
            ValueModel::One(_),
        ))
}

/// The first required field, from `j` on, whose slot is absent.
pub open spec fn first_missing<T>(
    fields: Seq<PlannedField>,
    slots: Seq<Option<ValueModel<T>>>,
    j: int,
) -> Option<int>
    decreases fields.len() - j,
{
    if j < 0 || j >= fields.len() {
        None
    } else if !fields[j].optional && slots[j] is None {
        Some(j)
    } else {
        first_missing(fields, slots, j + 1)
    }
}

/// What finalization gives: the field values in declaration order, or the
/// error text naming the first required field left unset.
pub open spec fn build_result<T>(fields: Seq<PlannedField>, slots: Seq<Option<ValueModel<T>>>) -> Result<
    Seq<Option<ValueModel<T>>>,
    Seq<char>,
> {
    match first_missing(fields, slots, 0) {
        Some(k) => Err(missing_message(fields[k].name@)),
        None => Ok(slots),
    }
}

impl<T> Staged<T> {
    /// A staged value for `plan` with every field absent.
    pub fn new(plan: &BuilderPlan) -> (r: Self)
        ensures
            r@ == fresh::<T>(plan.fields.len() as nat),
            slots_fit(plan.fields@, r@),
    {
        let mut slots: Vec<Option<FieldValue<T>>> = Vec::new();
        let mut i: usize = 0;
        while i < plan.fields.len()
            invariant
                i <= plan.fields.len(),
                slots.len() == i,
                forall|k: int| 0 <= k < i ==> #[trigger] slots@[k] is None,
            decreases plan.fields.len() - i,
        {
            slots.push(None);
            i = i + 1;
        }
        let r = Staged { slots };
        assert(r@ =~= fresh::<T>(plan.fields.len() as nat));
        r
    }

    /// The whole-value setter of field `field`: stores `value`, replacing
    /// what was there. A collected field under its own name has no such
    /// setter; the aliased one takes a whole list.
    pub fn assign(&mut self, plan: &BuilderPlan, field: usize, value: FieldValue<T>)
        requires
            slots_fit(plan.fields@, old(self)@),
            field < plan.fields.len(),
            !(plan.fields@[field as int].directive is Collected),
            (value is Many) == (plan.fields@[field as int].directive is AliasedCollected),
        ensures
            final(self)@ == old(self)@.update(field as int, Some(value.model())),
            slots_fit(plan.fields@, final(self)@),
    {
        self.slots.set(field, Some(value));
        assert(self@ =~= old(self)@.update(field as int, Some(value.model())));
    }

    /// The appender of field `field`: adds `item` at the end of the list,
    /// starting one if the field is absent.
    pub fn append(&mut self, plan: &BuilderPlan, field: usize, item: T)
        requires
            slots_fit(plan.fields@, old(self)@),
            field < plan.fields.len(),
            !(plan.fields@[field as int].directive is Plain),
        ensures
            final(self)@ == old(self)@.update(
                field as int,
                Some(ValueModel::Many(appended(old(self)@[field as int], item))),
            ),
            slots_fit(plan.fields@, final(self)@),
    {
        let ghost before = self@;
        let mut cur: Option<FieldValue<T>> = None;
        std::mem::swap(&mut cur, &mut self.slots[field]);
        assert(slot_model(cur) == before[field as int]);
        let list = match cur {
            Some(FieldValue::Many(mut l)) => {
                l.push(item);
                l
            },
            _ => {
                let mut l: Vec<T> = Vec::new();
                l.push(item);
                l
            },
        };
        assert(list@ == appended(before[field as int], item));
        self.slots.set(field, Some(FieldValue::Many(list)));
        assert(self@ =~= before.update(
            field as int,
            Some(ValueModel::Many(appended(before[field as int], item))),
        ));
    }

    /// Finalization: the field values in declaration order, or the error text
    /// naming the first required field, in declaration order, left unset.
    /// An optional field left unset is absent in the result.
    pub fn build(self, plan: &BuilderPlan) -> (r: Result<Vec<Option<FieldValue<T>>>, String>)
        requires
            slots_fit(plan.fields@, self@),
        ensures
            match (r, build_result(plan.fields@, self@)) {
                (Ok(v), Ok(m)) => v@.map_values(|s: Option<FieldValue<T>>| slot_model(s)) == m,
                (Err(e), Err(m)) => e@ == m,
                _ => false,
            },
    {
        let mut j: usize = 0;
        while j < plan.fields.len()
            invariant
                slots_fit(plan.fields@, self@),
                j <= plan.fields.len(),
                first_missing(plan.fields@, self@, 0) == first_missing(plan.fields@, self@, j as int),
            decreases plan.fields.len() - j,
        {
            let absent = self.slots[j].is_none();
            assert(absent == (self@[j as int] is None));
            if !plan.fields[j].optional && absent {
                return Err(missing_field_message(&plan.fields[j].name));
            }
            j = j + 1;
        }
        Ok(self.slots)
    }
}

} // verus!
