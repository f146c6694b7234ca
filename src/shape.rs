use vstd::prelude::*;
use crate::annotation::text_is;
use crate::model::TypeExpr;

verus! {

/// The type that the wrapper `wrapper` is applied to, when the outermost
/// constructor of `t` is that wrapper with one argument.
pub open spec fn wrapped_by(t: TypeExpr, wrapper: Seq<char>) -> Option<TypeExpr> {
    match t {
        TypeExpr::Applied(n, inner) => if n@ == wrapper {
            Some(*inner)
        } else {
            None
        },
        TypeExpr::Named(_) => None,
    }
}

fn unwrap_named(t: &TypeExpr, wrapper: &str) -> (r: Option<TypeExpr>)
    ensures
        r == wrapped_by(*t, wrapper@),
{
    match t {
        TypeExpr::Applied(n, inner) => if text_is(n, wrapper) {
            Some((**inner).duplicate())
        } else {
            None
        },
        TypeExpr::Named(_) => None,
    }
}

/// Whether the declared type is `Option<T>`.
pub fn is_option(t: &TypeExpr) -> (r: bool)
    ensures
        r == (wrapped_by(*t, "Option"@) is Some),
{
    unwrap_named(t, "Option").is_some()
}

/// `T` of a declared type `Option<T>`.
pub fn inner_type_of_option(t: &TypeExpr) -> (r: Option<TypeExpr>)
    ensures
        r == wrapped_by(*t, "Option"@),
{
    unwrap_named(t, "Option")
}

/// `T` of a declared type `Vec<T>`.
pub fn inner_type_of_vec(t: &TypeExpr) -> (r: Option<TypeExpr>)
    ensures
        r == wrapped_by(*t, "Vec"@),
{
    unwrap_named(t, "Vec")
}

} // verus!
