use vstd::prelude::*;
use crate::annotation::{debug_directive, debug_pattern};
use crate::model::{copy_strings, is_record, read_record, Declaration, FieldDeclaration, GenError};

verus! {

/// How one field is rendered.
pub enum FormatDirective {
    /// Through the field type's own debug representation.
    Default,
    /// Through this format pattern, forwarded as written.
    Pattern(String),
}

/// One field of the rendered structure, in declaration order.
pub struct DebugEntry {
    pub field: String,
    pub format: FormatDirective,
}

/// The debug-formatting implementation of a record.
pub struct DebugImpl {
    pub record: String,
    /// The type parameters, each of which must itself support debug
    /// formatting.
    pub bounded_params: Vec<String>,
    pub entries: Vec<DebugEntry>,
}

/// The entry of a field, or why its annotations are refused.
pub open spec fn debug_entry_of(f: FieldDeclaration) -> Result<DebugEntry, GenError> {
    match debug_pattern(f) {
        Err(e) => Err(e),
        Ok(None) => Ok(DebugEntry { field: f.name, format: FormatDirective::Default }),
        Ok(Some(p)) => Ok(DebugEntry { field: f.name, format: FormatDirective::Pattern(p) }),
    }
}

/// The first field, from `j` on, whose annotations are refused, and why.
pub open spec fn first_debug_error(fields: Seq<FieldDeclaration>, j: int) -> Option<GenError>
    decreases fields.len() - j,
{
    if j < 0 || j >= fields.len() {
        None
    } else {
        match debug_entry_of(fields[j]) {
            Err(e) => Some(e),
            Ok(_) => first_debug_error(fields, j + 1),
        }
    }
}

/// What generating the debug implementation of `d` gives.
pub open spec fn debug_outcome(d: Declaration, r: Result<DebugImpl, GenError>) -> bool {
    if !is_record(d) {
        r == Err::<DebugImpl, GenError>(GenError::UnsupportedShape)
    } else {
        match first_debug_error(d.fields@, 0) {
            Some(e) => r == Err::<DebugImpl, GenError>(e),
            None => r matches Ok(x) && x.record == d.name && x.bounded_params@ == d.generics@
                && x.entries.len() == d.fields.len() && forall|i: int|
                0 <= i < d.fields.len() ==> Ok::<DebugEntry, GenError>(#[trigger] x.entries@[i])
                    == debug_entry_of(d.fields@[i]),
        }
    }
}

/// The entry of one field.
pub fn debug_attr(f: &FieldDeclaration) -> (r: Result<DebugEntry, GenError>)
    ensures
        r == debug_entry_of(*f),
{
    match debug_directive(f) {
        Err(e) => Err(e),
        Ok(None) => Ok(DebugEntry { field: f.name.clone(), format: FormatDirective::Default }),
        Ok(Some(p)) => Ok(DebugEntry { field: f.name.clone(), format: FormatDirective::Pattern(p) }),
    }
}

/// Generates the debug-formatting implementation of a record: one entry per
/// field in declaration order, and a debug bound on every type parameter.
/// Refuses declarations that are not records with named fields, and stops at
/// the first field whose annotations are refused.
pub fn derive(d: &Declaration) -> (r: Result<DebugImpl, GenError>)
    ensures
        debug_outcome(*d, r),
{
    let rec = match read_record(d) {
        Ok(rec) => rec,
        Err(e) => {
            return Err(e);
        },
    };
    let fields = rec.fields;
    let mut entries: Vec<DebugEntry> = Vec::new();
    let mut j: usize = 0;
    while j < fields.len()
        invariant
            fields == &d.fields,
            is_record(*d),
            j <= fields.len(),
            entries.len() == j,
            first_debug_error(fields@, 0) == first_debug_error(fields@, j as int),
            forall|i: int|
                0 <= i < j ==> Ok::<DebugEntry, GenError>(#[trigger] entries@[i]) == debug_entry_of(
                    fields@[i],
                ),
        decreases fields.len() - j,
    {
        match debug_attr(&fields[j]) {
            Ok(e) => {
                entries.push(e);
            },
            Err(e) => {
                assert(first_debug_error(fields@, j as int) == Some(e));
                return Err(e);
            },
        }
        j = j + 1;
    }
    let bounded_params = copy_strings(rec.generics);
    Ok(DebugImpl { record: rec.name.clone(), bounded_params, entries })
}

} // verus!
