use vstd::prelude::*;

verus! {

/// A declared type: a plain named type, or a named wrapper applied to one
/// inner type (`Option<T>`, `Vec<T>`). Anything else is kept as a plain
/// type whose name is its full source text.
pub enum TypeExpr {
    Named(String),
    Applied(String, Box<TypeExpr>),
}

impl TypeExpr {
    /// A copy equal to `self`.
    pub fn duplicate(&self) -> (r: TypeExpr)
        ensures
            r == *self,
        decreases self,
    {
        match self {
            TypeExpr::Named(n) => TypeExpr::Named(n.clone()),
            TypeExpr::Applied(n, inner) => {
                let i = (**inner).duplicate();
                TypeExpr::Applied(n.clone(), Box::new(i))
            },
        }
    }
}

/// One token of an annotation's argument list.
pub enum AttrToken {
    Ident(String),
    Punct(char),
    /// A literal, as written in source (a string literal keeps its quotes).
    Literal(String),
    /// A delimited group; its contents never matter to these generators.
    Group,
}

/// The arguments of an annotation.
pub enum AnnotationArgs {
    /// `#[name]`
    Bare,
    /// `#[name(tokens)]`
    List(Vec<AttrToken>),
    /// `#[name = expr]`, the expression kept as source text.
    Value(String),
}

/// An annotation attached to a field.
pub struct Annotation {
    pub name: String,
    pub args: AnnotationArgs,
}

/// A field as declared: name, type and annotations in source order.
pub struct FieldDeclaration {
    pub name: String,
    pub ty: TypeExpr,
    pub annotations: Vec<Annotation>,
}

/// What kind of type declaration was given.
#[derive(PartialEq, Eq, Structural, Clone, Copy)]
pub enum DeclarationShape {
    NamedFields,
    TupleFields,
    Unit,
    Enum,
    Union,
}

/// A type declaration as handed over by the host toolchain.
pub struct Declaration {
    pub name: String,
    pub generics: Vec<String>,
    pub shape: DeclarationShape,
    pub fields: Vec<FieldDeclaration>,
}

/// A record with named fields: the only declaration the generators accept.
pub struct RecordDeclaration<'a> {
    pub name: &'a String,
    pub generics: &'a Vec<String>,
    pub fields: &'a Vec<FieldDeclaration>,
}

/// Why generation was refused.
pub enum GenError {
    /// The declaration is not a record with named fields.
    UnsupportedShape,
    /// A `builder` annotation that is not of the form `builder(each = "...")`.
    MalformedBuilder { field: String },
    /// A key other than `each` inside a `builder` annotation.
    UnknownBuilderKey { field: String, key: String },
    /// The `each` value is not an identifier.
    InvalidEachName { field: String },
    /// An `each` directive on a field whose type is not `Vec<T>`.
    NotRepeated { field: String },
    /// A `debug` annotation that is not of the form `debug = "..."`.
    MalformedDebug { field: String },
    /// A second `debug` annotation on one field.
    DuplicateDebug { field: String },
}

/// A copy of a list of strings.
pub fn copy_strings(v: &Vec<String>) -> (r: Vec<String>)
    ensures
        r@ == v@,
{
    let mut r: Vec<String> = Vec::new();
    let mut i: usize = 0;
    while i < v.len()
        invariant
            i <= v.len(),
            r@ == v@.subrange(0, i as int),
        decreases v.len() - i,
    {
        r.push(v[i].clone());
        i = i + 1;
    }
    assert(r@ =~= v@);
    r
}

/// Reading succeeds exactly on declarations of records with named fields.
pub open spec fn is_record(d: Declaration) -> bool {
    d.shape == DeclarationShape::NamedFields
}

/// Takes a record with named fields out of a declaration; refuses tuple,
/// unit, enum and union declarations.
pub fn read_record(d: &Declaration) -> (r: Result<RecordDeclaration<'_>, GenError>)
    ensures
        is_record(*d) <==> r is Ok,
        r matches Ok(rec) ==> rec.name == &d.name && rec.generics == &d.generics && rec.fields
            == &d.fields,
        r matches Err(e) ==> e is UnsupportedShape,
{
    match d.shape {
        DeclarationShape::NamedFields => Ok(
            RecordDeclaration { name: &d.name, generics: &d.generics, fields: &d.fields },
        ),
        _ => Err(GenError::UnsupportedShape),
    }
}

} // verus!
