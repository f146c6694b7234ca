use vstd::prelude::*;
use crate::annotation::{builder_each, each_directive};
use crate::model::{is_record, read_record, Declaration, FieldDeclaration, GenError, TypeExpr};
use crate::shape::{inner_type_of_option, inner_type_of_vec, wrapped_by};

verus! {

/// How the setters of one field are generated.
pub enum FieldDirective {
    /// One setter under the field's name, taking the stored type.
    Plain,
    /// `each` names the field itself: one appender under the field's name,
    /// taking an element of this type.
    Collected(TypeExpr),
    /// `each` names another method: a whole-value setter under the field's
    /// name and an appender under this name, taking an element of this type.
    AliasedCollected(String, TypeExpr),
}

/// [`FieldDirective`] with the appender's name as characters.
pub enum DirectiveModel {
    Plain,
    Collected(TypeExpr),
    AliasedCollected(Seq<char>, TypeExpr),
}

impl FieldDirective {
    pub open spec fn model(self) -> DirectiveModel {
        match self {
            FieldDirective::Plain => DirectiveModel::Plain,
            FieldDirective::Collected(t) => DirectiveModel::Collected(t),
            FieldDirective::AliasedCollected(a, t) => DirectiveModel::AliasedCollected(a@, t),
        }
    }
}

/// One field of the companion builder type.
pub struct PlannedField {
    pub name: String,
    /// Whether the field is `Option<T>` in the record, so that leaving it
    /// unset is no error.
    pub optional: bool,
    /// The type held while the field is staged: `T` for `Option<T>`, else the
    /// declared type. The whole-value setter takes this type.
    pub stored: TypeExpr,
    pub directive: FieldDirective,
}

/// The companion builder of a record.
pub struct BuilderPlan {
    pub record: String,
    pub builder_name: String,
    pub fields: Vec<PlannedField>,
}

/// Whether a setter stores its argument or appends it to a list.
#[derive(PartialEq, Eq, Structural, Clone, Copy)]
pub enum OperationKind {
    Assign,
    Append,
}

/// One generated setter: its method name, what it does and the type of its
/// argument.
pub struct Operation {
    pub method: String,
    pub kind: OperationKind,
    pub param: TypeExpr,
}

impl Operation {
    pub open spec fn model(self) -> (Seq<char>, OperationKind, TypeExpr) {
        (self.method@, self.kind, self.param)
    }
}

/// Optionality, stored type and directive of a field, or why it cannot be
/// planned.
pub open spec fn plan_field(f: FieldDeclaration) -> Result<(bool, TypeExpr, DirectiveModel), GenError> {
    let optional = wrapped_by(f.ty, "Option"@) is Some;
    let stored = if optional {
        wrapped_by(f.ty, "Option"@)->Some_0
    } else {
        f.ty
    };
    match builder_each(f) {
        Err(e) => Err(e),
        Ok(None) => Ok((optional, stored, DirectiveModel::Plain)),
        Ok(Some(v)) => match wrapped_by(f.ty, "Vec"@) {
            None => Err(GenError::NotRepeated { field: f.name }),
            Some(el) => if v == f.name@ {
                Ok((optional, stored, DirectiveModel::Collected(el)))
            } else {
                Ok((optional, stored, DirectiveModel::AliasedCollected(v, el)))
            },
        },
    }
}

pub open spec fn planned_as(p: PlannedField, f: FieldDeclaration) -> bool {
    plan_field(f) matches Ok((o, s, d)) && p.name == f.name && p.optional == o && p.stored == s
        && p.directive.model() == d
}

/// The first field, from `j` on, that cannot be planned, and why.
pub open spec fn first_plan_error(fields: Seq<FieldDeclaration>, j: int) -> Option<GenError>
    decreases fields.len() - j,
{
    if j < 0 || j >= fields.len() {
        None
    } else {
        match plan_field(fields[j]) {
            Err(e) => Some(e),
            Ok(_) => first_plan_error(fields, j + 1),
        }
    }
}

/// What generating the builder of `d` gives.
pub open spec fn builder_outcome(d: Declaration, r: Result<BuilderPlan, GenError>) -> bool {
    if !is_record(d) {
        r == Err::<BuilderPlan, GenError>(GenError::UnsupportedShape)
    } else {
        match first_plan_error(d.fields@, 0) {
            Some(e) => r == Err::<BuilderPlan, GenError>(e),
            None => r matches Ok(p) && p.record == d.name && p.builder_name@ == d.name@
                + "Builder"@ && p.fields.len() == d.fields.len() && forall|i: int|
                0 <= i < d.fields.len() ==> planned_as(#[trigger] p.fields[i], d.fields[i]),
        }
    }
}

/// The setters generated for a field, in order.
pub open spec fn operations_of(p: PlannedField) -> Seq<(Seq<char>, OperationKind, TypeExpr)> {
    match p.directive.model() {
        DirectiveModel::Plain => seq![(p.name@, OperationKind::Assign, p.stored)],
        DirectiveModel::Collected(el) => seq![(p.name@, OperationKind::Append, el)],
        DirectiveModel::AliasedCollected(a, el) => seq![
            (p.name@, OperationKind::Assign, p.stored),
            (a, OperationKind::Append, el),
        ],
    }
}

/// The error text for a required field left unset.
pub open spec fn missing_message(name: Seq<char>) -> Seq<char> {
    "field `"@ + name + "` is missing"@
}

/// The error text that finalization gives for a required field left unset.
pub fn missing_field_message(name: &String) -> (r: String)
    ensures
        r@ == missing_message(name@),
{
    String::from_str("field `").concat(name.as_str()).concat("` is missing")
}

impl PlannedField {
    /// The setters generated for this field, in order.
    pub fn operations(&self) -> (r: Vec<Operation>)
        ensures
            r@.map_values(|o: Operation| o.model()) == operations_of(*self),
    {
        let mut r: Vec<Operation> = Vec::new();
        match &self.directive {
            FieldDirective::Plain => {
                r.push(
                    Operation {
                        method: self.name.clone(),
                        kind: OperationKind::Assign,
                        param: self.stored.duplicate(),
                    },
                );
            },
            FieldDirective::Collected(el) => {
                r.push(
                    Operation {
                        method: self.name.clone(),
                        kind: OperationKind::Append,
                        param: el.duplicate(),
                    },
                );
            },
            FieldDirective::AliasedCollected(a, el) => {
                r.push(
                    Operation {
                        method: self.name.clone(),
                        kind: OperationKind::Assign,
                        param: self.stored.duplicate(),
                    },
                );
                r.push(
                    Operation { method: a.clone(), kind: OperationKind::Append, param: el.duplicate() },
                );
            },
        }
        assert(r@.map_values(|o: Operation| o.model()) =~= operations_of(*self));
        r
    }
}

/// Plans one field of the builder: optionality, stored type and setters.
pub fn field_plan(f: &FieldDeclaration) -> (r: Result<PlannedField, GenError>)
    ensures
        match r {
            Ok(p) => planned_as(p, *f),
            Err(e) => plan_field(*f) == Err::<(bool, TypeExpr, DirectiveModel), GenError>(e),
        },
{
    let each = each_directive(f);
    let (optional, stored) = match inner_type_of_option(&f.ty) {
        Some(t) => (true, t),
        None => (false, f.ty.duplicate()),
    };
    let directive = match each {
        Err(e) => {
            return Err(e);
        },
        Ok(None) => FieldDirective::Plain,
        Ok(Some(v)) => match inner_type_of_vec(&f.ty) {
            None => {
                return Err(GenError::NotRepeated { field: f.name.clone() });
            },
            Some(el) => {
                if v == f.name {
                    FieldDirective::Collected(el)
                } else {
                    FieldDirective::AliasedCollected(v, el)
                }
            },
        },
    };
    Ok(PlannedField { name: f.name.clone(), optional, stored, directive })
}

/// Generates the companion builder of a record: one staged field and its
/// setters per record field, in declaration order. Refuses declarations that
/// are not records with named fields, and stops at the first field whose
/// annotations or type do not fit.
pub fn derive(d: &Declaration) -> (r: Result<BuilderPlan, GenError>)
    ensures
        builder_outcome(*d, r),
{
    let rec = match read_record(d) {
        Ok(rec) => rec,
        Err(e) => {
            return Err(e);
        },
    };
    let fields = rec.fields;
    let mut planned: Vec<PlannedField> = Vec::new();
    let mut j: usize = 0;
    while j < fields.len()
        invariant
            fields == &d.fields,
            is_record(*d),
            j <= fields.len(),
            planned.len() == j,
            first_plan_error(fields@, 0) == first_plan_error(fields@, j as int),
            forall|i: int| 0 <= i < j ==> planned_as(#[trigger] planned@[i], fields@[i]),
        decreases fields.len() - j,
    {
        match field_plan(&fields[j]) {
            Ok(p) => {
                planned.push(p);
            },
            Err(e) => {
                assert(first_plan_error(fields@, j as int) == Some(e));
                return Err(e);
            },
        }
        j = j + 1;
    }
    let builder_name = rec.name.clone().concat("Builder");
    Ok(BuilderPlan { record: rec.name.clone(), builder_name, fields: planned })
}

} // verus!
