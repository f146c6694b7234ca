use vstd::prelude::*;
use crate::annotation::{builder_each, debug_over, each_entries, each_over};
use crate::builder::{
    builder_outcome, first_plan_error, operations_of, plan_field, planned_as, BuilderPlan,
    OperationKind,
};
use crate::debug::{debug_entry_of, debug_outcome, first_debug_error, DebugImpl};
use crate::model::{is_record, AnnotationArgs, AttrToken, Declaration, FieldDeclaration, GenError};
use crate::shape::wrapped_by;
use crate::staged::{appended, build_result, first_missing, fresh, ValueModel};

verus! {

/// The slots after whole-value setter calls, each a field index and a value,
/// run in order.
pub open spec fn after_assigns<T>(slots: Seq<Option<ValueModel<T>>>, calls: Seq<(int, T)>) -> Seq<
    Option<ValueModel<T>>,
>
    decreases calls.len(),
{
    if calls.len() == 0 {
        slots
    } else {
        after_assigns(
            slots.update(calls[0].0, Some(ValueModel::One(calls[0].1))),
            calls.drop_first(),
        )
    }
}

/// A slot after appender calls with `items`, in order.
pub open spec fn after_appends<T>(slot: Option<ValueModel<T>>, items: Seq<T>) -> Option<ValueModel<T>>
    decreases items.len(),
{
    if items.len() == 0 {
        slot
    } else {
        after_appends(Some(ValueModel::Many(appended(slot, items[0]))), items.drop_first())
    }
}

/// Whether some call set field `i`.
pub open spec fn is_called<T>(calls: Seq<(int, T)>, i: int) -> bool {
    exists|j: int| 0 <= j < calls.len() && #[trigger] calls[j].0 == i
}

proof fn lemma_first_plan_error(fields: Seq<FieldDeclaration>, j: int)
    requires
        0 <= j <= fields.len(),
    ensures
        first_plan_error(fields, j) is None <==> forall|i: int|
            j <= i < fields.len() ==> #[trigger] plan_field(fields[i]) is Ok,
        forall|k: int|
            j <= k < fields.len() && plan_field(fields[k]) is Err && (forall|i: int|
                j <= i < k ==> #[trigger] plan_field(fields[i]) is Ok) ==> first_plan_error(fields, j)
                == Some(plan_field(fields[k])->Err_0),
    decreases fields.len() - j,
{
    if j < fields.len() {
        lemma_first_plan_error(fields, j + 1);
        assert forall|k: int|
            j <= k < fields.len() && plan_field(fields[k]) is Err && (forall|i: int|
                j <= i < k ==> #[trigger] plan_field(fields[i]) is Ok) implies first_plan_error(
            fields,
            j,
        ) == Some(plan_field(fields[k])->Err_0) by {
            if k > j {
                assert(plan_field(fields[j]) is Ok);
            }
        }
    }
}

proof fn lemma_first_debug_error(fields: Seq<FieldDeclaration>, j: int, k: int)
    requires
        0 <= j <= k < fields.len(),
        debug_entry_of(fields[k]) is Err,
    ensures
        first_debug_error(fields, j) is Some,
    decreases k - j,
{
    if j < k {
        lemma_first_debug_error(fields, j + 1, k);
    }
}

proof fn lemma_first_missing<T>(fields: Seq<crate::builder::PlannedField>, slots: Seq<Option<ValueModel<T>>>, j: int)
    requires
        0 <= j <= fields.len(),
        slots.len() == fields.len(),
    ensures
        first_missing(fields, slots, j) is None <==> forall|i: int|
            j <= i < fields.len() ==> fields[i].optional || #[trigger] slots[i] is Some,
        first_missing(fields, slots, j) matches Some(k) ==> j <= k < fields.len()
            && !fields[k].optional && slots[k] is None && forall|i: int|
            j <= i < k ==> fields[i].optional || #[trigger] slots[i] is Some,
    decreases fields.len() - j,
{
    if j < fields.len() {
        lemma_first_missing(fields, slots, j + 1);
    }
}

proof fn lemma_after_assigns<T>(slots: Seq<Option<ValueModel<T>>>, calls: Seq<(int, T)>)
    requires
        forall|j: int| 0 <= j < calls.len() ==> 0 <= #[trigger] calls[j].0 < slots.len(),
    ensures
        after_assigns(slots, calls).len() == slots.len(),
        forall|i: int|
            0 <= i < slots.len() ==> (#[trigger] after_assigns(slots, calls)[i] is Some <==> (
            slots[i] is Some || is_called(calls, i))),
    decreases calls.len(),
{
    if calls.len() > 0 {
        let s2 = slots.update(calls[0].0, Some(ValueModel::One(calls[0].1)));
        let rest = calls.drop_first();
        assert forall|j: int| 0 <= j < rest.len() implies 0 <= #[trigger] rest[j].0 < s2.len() by {
            assert(rest[j] == calls[j + 1]);
        }
        lemma_after_assigns(s2, rest);
        assert forall|i: int| 0 <= i < slots.len() implies (#[trigger] after_assigns(
            slots,
            calls,
        )[i] is Some <==> (slots[i] is Some || is_called(calls, i))) by {
            if is_called(calls, i) {
                let j = choose|j: int| 0 <= j < calls.len() && #[trigger] calls[j].0 == i;
                if j > 0 {
                    assert(rest[j - 1].0 == i);
                }
            }
            if is_called(rest, i) {
                let j = choose|j: int| 0 <= j < rest.len() && #[trigger] rest[j].0 == i;
                assert(calls[j + 1].0 == i);
            }
        }
    }
}

proof fn lemma_after_appends<T>(l: Seq<T>, items: Seq<T>)
    ensures
        after_appends(Some(ValueModel::Many(l)), items) == Some(ValueModel::Many(l + items)),
    decreases items.len(),
{
    if items.len() > 0 {
        lemma_after_appends(l.push(items[0]), items.drop_first());
        assert(l.push(items[0]) + items.drop_first() =~= l + items);
    }
}

proof fn lemma_each_over_err(
    anns: Seq<crate::model::Annotation>,
    j: int,
    field: String,
    acc: Option<Seq<char>>,
    m: int,
)
    requires
        0 <= j <= m < anns.len(),
        anns[m].name@ == "builder"@,
        anns[m].args matches AnnotationArgs::List(toks) && each_entries(toks@, 0, field, None) is Err,
    ensures
        each_over(anns, j, field, acc) is Err,
    decreases m - j,
{
    if j < m {
        if anns[j].name@ == "builder"@ {
            if let AnnotationArgs::List(toks) = anns[j].args {
                match each_entries(toks@, 0, field, None) {
                    Ok(Some(v)) => lemma_each_over_err(anns, j + 1, field, Some(v), m),
                    Ok(None) => lemma_each_over_err(anns, j + 1, field, acc, m),
                    Err(_) => {},
                }
            }
        } else {
            lemma_each_over_err(anns, j + 1, field, acc, m);
        }
    }
}

proof fn lemma_debug_over_after(
    anns: Seq<crate::model::Annotation>,
    j: int,
    field: String,
    acc: Option<String>,
    m: int,
)
    requires
        0 <= j <= m < anns.len(),
        acc is Some,
        anns[m].name@ == "debug"@,
    ensures
        debug_over(anns, j, field, acc) is Err,
    decreases m - j,
{
    if j < m && anns[j].name@ != "debug"@ {
        lemma_debug_over_after(anns, j + 1, field, acc, m);
    }
}

proof fn lemma_debug_over_twice(
    anns: Seq<crate::model::Annotation>,
    j: int,
    field: String,
    acc: Option<String>,
    m1: int,
    m2: int,
)
    requires
        0 <= j <= m1 < m2 < anns.len(),
        anns[m1].name@ == "debug"@,
        anns[m2].name@ == "debug"@,
    ensures
        debug_over(anns, j, field, acc) is Err,
    decreases m1 - j,
{
    if anns[j].name@ == "debug"@ {
        if let AnnotationArgs::Value(text) = anns[j].args {
            if acc is None {
                if j < m1 {
                    lemma_debug_over_twice(anns, j + 1, field, Some(text), m1, m2);
                } else {
                    lemma_debug_over_after(anns, j + 1, field, Some(text), m2);
                }
            }
        }
    } else {
        lemma_debug_over_twice(anns, j + 1, field, acc, m1, m2);
    }
}

proof fn lemma_plain_plan(d: Declaration, r: Result<BuilderPlan, GenError>)
    requires
        builder_outcome(d, r),
        is_record(d),
        forall|i: int|
            0 <= i < d.fields.len() ==> (#[trigger] d.fields@[i]).annotations.len() == 0
                && wrapped_by(d.fields@[i].ty, "Option"@) is None,
    ensures
        r is Ok,
        r->Ok_0.fields.len() == d.fields.len(),
        forall|i: int|
            0 <= i < d.fields.len() ==> !(#[trigger] r->Ok_0.fields@[i]).optional
                && r->Ok_0.fields@[i].name == d.fields@[i].name,
{
    let fields = d.fields@;
    assert forall|i: int| 0 <= i < fields.len() implies #[trigger] plan_field(fields[i]) is Ok by {
        assert(builder_each(fields[i]) == Ok::<Option<Seq<char>>, GenError>(None));
    }
    lemma_first_plan_error(fields, 0);
    let p = r->Ok_0;
    assert forall|i: int| 0 <= i < fields.len() implies !(#[trigger] p.fields@[i]).optional
        && p.fields@[i].name == fields[i].name by {
        assert(planned_as(p.fields@[i], fields[i]));
    }
}

/// For a record whose fields are all plain (none is `Option<T>`) and carry no
/// annotations, finalization after any sequence of setter calls succeeds
/// exactly when every field was set at least once, and otherwise names the
/// first field, in declaration order, that was never set.
pub proof fn law_plain_build_needs_every_field<T>(
    d: Declaration,
    r: Result<BuilderPlan, GenError>,
    calls: Seq<(int, T)>,
)
    requires
        builder_outcome(d, r),
        is_record(d),
        forall|i: int|
            0 <= i < d.fields.len() ==> (#[trigger] d.fields@[i]).annotations.len() == 0
                && wrapped_by(d.fields@[i].ty, "Option"@) is None,
        forall|j: int| 0 <= j < calls.len() ==> 0 <= #[trigger] calls[j].0 < d.fields.len(),
    ensures
        r matches Ok(p) && ({
            let res = build_result(p.fields@, after_assigns(fresh::<T>(p.fields.len() as nat), calls));
            &&& (res is Ok <==> forall|i: int| 0 <= i < d.fields.len() ==> is_called(calls, i))
            &&& (res matches Err(msg) ==> exists|k: int|
                0 <= k < d.fields.len() && !is_called(calls, k) && (forall|i: int|
                    0 <= i < k ==> is_called(calls, i)) && msg == crate::builder::missing_message(
                    d.fields@[k].name@,
                ))
        }),
{
    lemma_plain_plan(d, r);
    let p = r->Ok_0;
    let n = p.fields.len() as nat;
    let slots = after_assigns(fresh::<T>(n), calls);
    lemma_after_assigns(fresh::<T>(n), calls);
    lemma_first_missing(p.fields@, slots, 0);
    assert forall|i: int| 0 <= i < n implies (#[trigger] slots[i] is Some <==> is_called(calls, i)) by {
        assert(fresh::<T>(n)[i] is None);
    }
    let res = build_result(p.fields@, slots);
    if forall|i: int| 0 <= i < d.fields.len() ==> is_called(calls, i) {
        assert forall|i: int| 0 <= i < n implies p.fields@[i].optional || #[trigger] slots[i] is Some by {
            assert(is_called(calls, i));
        }
        assert(res is Ok);
    }
    if let Some(k) = first_missing(p.fields@, slots, 0) {
        assert(!is_called(calls, k));
        assert(forall|i: int| 0 <= i < k ==> #[trigger] slots[i] is Some);
        assert forall|i: int| 0 <= i < k implies is_called(calls, i) by {
            assert(slots[i] is Some);
        }
        assert(res == Err::<Seq<Option<ValueModel<T>>>, Seq<char>>(
            crate::builder::missing_message(d.fields@[k].name@),
        ));
        assert(0 <= k < d.fields.len() && !is_called(calls, k) && (forall|i: int|
            0 <= i < k ==> is_called(calls, i)) && res->Err_0 == crate::builder::missing_message(
            d.fields@[k].name@,
        ));
    } else {
        assert forall|i: int| 0 <= i < d.fields.len() implies is_called(calls, i) by {
            assert(!p.fields@[i].optional);
            assert(slots[i] is Some);
        }
    }
}

/// A field declared `Option<T>` may be left unset: finalization never names
/// it, succeeds once every other field is set, and gives the field as absent.
pub proof fn law_optional_field_may_stay_unset<T>(
    d: Declaration,
    r: Result<BuilderPlan, GenError>,
    k: int,
    slots: Seq<Option<ValueModel<T>>>,
)
    requires
        builder_outcome(d, r),
        r is Ok,
        0 <= k < d.fields.len(),
        wrapped_by(d.fields@[k].ty, "Option"@) is Some,
        slots.len() == d.fields.len(),
        slots[k] is None,
    ensures
        first_missing(r->Ok_0.fields@, slots, 0) != Some(k),
        build_result(r->Ok_0.fields@, slots) matches Ok(v) ==> v[k] is None,
        (forall|i: int| 0 <= i < slots.len() && i != k ==> #[trigger] slots[i] is Some) ==> build_result(
            r->Ok_0.fields@,
            slots,
        ) is Ok,
{
    let p = r->Ok_0;
    assert(is_record(d));
    assert(planned_as(p.fields@[k], d.fields@[k]));
    lemma_first_missing(p.fields@, slots, 0);
}

/// A field whose `each` name is its own name gets one appender under that
/// name and no whole-value setter; appending one or more items one by one
/// leaves exactly those items, in call order.
pub proof fn law_self_named_each_collects<T>(
    d: Declaration,
    r: Result<BuilderPlan, GenError>,
    k: int,
    items: Seq<T>,
)
    requires
        builder_outcome(d, r),
        r is Ok,
        0 <= k < d.fields.len(),
        builder_each(d.fields@[k]) == Ok::<Option<Seq<char>>, GenError>(Some(d.fields@[k].name@)),
        items.len() > 0,
    ensures
        r->Ok_0.fields@[k].directive is Collected,
        operations_of(r->Ok_0.fields@[k]).len() == 1,
        operations_of(r->Ok_0.fields@[k])[0].0 == d.fields@[k].name@,
        operations_of(r->Ok_0.fields@[k])[0].1 == OperationKind::Append,
        after_appends(None, items) == Some(ValueModel::Many(items)),
{
    assert(is_record(d));
    assert(planned_as(r->Ok_0.fields@[k], d.fields@[k]));
    lemma_after_appends(seq![items[0]], items.drop_first());
    assert(seq![items[0]] + items.drop_first() =~= items);
}

/// A field whose `each` name differs from its own gets a whole-value setter
/// under its own name and an appender under the `each` name; setting a list
/// and then appending an item leaves the list with the item at its end.
pub proof fn law_aliased_each_sets_then_appends<T>(
    d: Declaration,
    r: Result<BuilderPlan, GenError>,
    k: int,
    slots: Seq<Option<ValueModel<T>>>,
    list: Seq<T>,
    item: T,
)
    requires
        builder_outcome(d, r),
        r is Ok,
        0 <= k < d.fields.len(),
        builder_each(d.fields@[k]) matches Ok(Some(v)) && v != d.fields@[k].name@,
        slots.len() == d.fields.len(),
    ensures
        ({
            let v = builder_each(d.fields@[k])->Ok_0->Some_0;
            let ops = operations_of(r->Ok_0.fields@[k]);
            &&& ops.len() == 2
            &&& ops[0].0 == d.fields@[k].name@ && ops[0].1 == OperationKind::Assign
                && ops[0].2 == d.fields@[k].ty
            &&& ops[1].0 == v && ops[1].1 == OperationKind::Append
        }),
        ({
            let set = slots.update(k, Some(ValueModel::Many(list)));
            set.update(k, Some(ValueModel::Many(appended(set[k], item))))[k] == Some(
                ValueModel::Many(list.push(item)),
            )
        }),
{
    assert(is_record(d));
    let f = d.fields@[k];
    assert(planned_as(r->Ok_0.fields@[k], f));
    assert(wrapped_by(f.ty, "Vec"@) is Some);
    assert(wrapped_by(f.ty, "Option"@) is None) by {
        reveal_strlit("Vec");
        reveal_strlit("Option");
        assert("Vec"@.len() != "Option"@.len());
    }
}

/// A `builder` annotation whose list starts with a key other than `each`
/// fails generation.
pub proof fn law_unknown_builder_key_fails(
    d: Declaration,
    r: Result<BuilderPlan, GenError>,
    k: int,
    m: int,
)
    requires
        builder_outcome(d, r),
        0 <= k < d.fields.len(),
        0 <= m < d.fields@[k].annotations.len(),
        d.fields@[k].annotations@[m].name@ == "builder"@,
        d.fields@[k].annotations@[m].args matches AnnotationArgs::List(toks) && toks@.len() > 0
            && (toks@[0] matches AttrToken::Ident(key) && key@ != "each"@),
    ensures
        r is Err,
{
    let f = d.fields@[k];
    lemma_each_over_err(f.annotations@, 0, f.name, None, m);
    lemma_first_plan_error(d.fields@, 0);
}

/// A `debug` annotation given twice on one field fails generation.
pub proof fn law_duplicate_debug_fails(
    d: Declaration,
    r: Result<DebugImpl, GenError>,
    k: int,
    m1: int,
    m2: int,
)
    requires
        debug_outcome(d, r),
        0 <= k < d.fields.len(),
        0 <= m1 < m2 < d.fields@[k].annotations.len(),
        d.fields@[k].annotations@[m1].name@ == "debug"@,
        d.fields@[k].annotations@[m2].name@ == "debug"@,
    ensures
        r is Err,
{
    let f = d.fields@[k];
    lemma_debug_over_twice(f.annotations@, 0, f.name, None, m1, m2);
    if is_record(d) {
        lemma_first_debug_error(d.fields@, 0, k);
    }
}

/// An `each` directive on a field whose type is not `Vec<T>` fails
/// generation; where every earlier field is fine, the error names that field.
pub proof fn law_each_needs_repeated_type(d: Declaration, r: Result<BuilderPlan, GenError>, k: int)
    requires
        builder_outcome(d, r),
        0 <= k < d.fields.len(),
        builder_each(d.fields@[k]) matches Ok(Some(_)),
        wrapped_by(d.fields@[k].ty, "Vec"@) is None,
    ensures
        r is Err,
        is_record(d) && (forall|i: int| 0 <= i < k ==> #[trigger] plan_field(d.fields@[i]) is Ok)
            ==> r == Err::<BuilderPlan, GenError>(GenError::NotRepeated { field: d.fields@[k].name }),
{
    lemma_first_plan_error(d.fields@, 0);
}

} // verus!
