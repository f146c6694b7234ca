use record_derive::builder::BuilderPlan;
use record_derive::model::{
    Annotation, AnnotationArgs, AttrToken, Declaration, DeclarationShape, FieldDeclaration, TypeExpr,
};
use record_derive::staged::{FieldValue, Staged};

fn named(s: &str) -> TypeExpr {
    TypeExpr::Named(s.to_owned())
}

fn applied(w: &str, inner: TypeExpr) -> TypeExpr {
    TypeExpr::Applied(w.to_owned(), Box::new(inner))
}

fn each(v: &str) -> Annotation {
    Annotation {
        name: "builder".to_owned(),
        args: AnnotationArgs::List(vec![
            AttrToken::Ident("each".to_owned()),
            AttrToken::Punct('='),
            AttrToken::Literal(format!("\"{}\"", v)),
        ]),
    }
}

fn plan(fields: Vec<(&str, TypeExpr, Vec<Annotation>)>) -> BuilderPlan {
    let d = Declaration {
        name: "R".to_owned(),
        generics: vec![],
        shape: DeclarationShape::NamedFields,
        fields: fields
            .into_iter()
            .map(|(n, ty, annotations)| FieldDeclaration { name: n.to_owned(), ty, annotations })
            .collect(),
    };
    record_derive::builder::derive(&d).ok().unwrap()
}

fn plain3() -> BuilderPlan {
    plan(vec![("a", named("u8"), vec![]), ("b", named("u8"), vec![]), ("c", named("u8"), vec![])])
}

fn one(v: &str) -> FieldValue<String> {
    FieldValue::One(v.to_owned())
}

#[test]
fn plain_fields_all_set_build() {
    let p = plain3();
    let mut s: Staged<String> = Staged::new(&p);
    s.assign(&p, 2, one("z"));
    s.assign(&p, 0, one("x"));
    s.assign(&p, 1, one("y"));
    s.assign(&p, 0, one("x2"));
    let vals = s.build(&p).ok().unwrap();
    assert_eq!(vals.len(), 3);
    assert!(matches!(&vals[0], Some(FieldValue::One(v)) if v == "x2"));
    assert!(matches!(&vals[1], Some(FieldValue::One(v)) if v == "y"));
    assert!(matches!(&vals[2], Some(FieldValue::One(v)) if v == "z"));
}

#[test]
fn plain_fields_first_unset_is_named() {
    let p = plain3();
    let mut s: Staged<String> = Staged::new(&p);
    s.assign(&p, 2, one("z"));
    assert_eq!(s.build(&p).err().unwrap(), "field `a` is missing");
    let mut s: Staged<String> = Staged::new(&p);
    s.assign(&p, 0, one("x"));
    assert_eq!(s.build(&p).err().unwrap(), "field `b` is missing");
    let s: Staged<String> = Staged::new(&p);
    assert_eq!(s.build(&p).err().unwrap(), "field `a` is missing");
}

#[test]
fn optional_field_left_unset_is_absent() {
    let p = plan(vec![("a", named("u8"), vec![]), ("o", applied("Option", named("u8")), vec![])]);
    let mut s: Staged<u8> = Staged::new(&p);
    s.assign(&p, 0, FieldValue::One(1));
    let vals = s.build(&p).ok().unwrap();
    assert!(matches!(vals[0], Some(FieldValue::One(1))));
    assert!(vals[1].is_none());
}

#[test]
fn self_named_each_appends_in_call_order() {
    let p = plan(vec![("x", applied("Vec", named("String")), vec![each("x")])]);
    let mut s: Staged<String> = Staged::new(&p);
    s.append(&p, 0, "1".to_owned());
    s.append(&p, 0, "2".to_owned());
    s.append(&p, 0, "3".to_owned());
    let vals = s.build(&p).ok().unwrap();
    match &vals[0] {
        Some(FieldValue::Many(l)) => assert_eq!(l, &vec!["1", "2", "3"]),
        _ => panic!("expected a list"),
    }
}

#[test]
fn self_named_each_never_appended_is_missing() {
    let p = plan(vec![("x", applied("Vec", named("String")), vec![each("x")])]);
    let s: Staged<String> = Staged::new(&p);
    assert_eq!(s.build(&p).err().unwrap(), "field `x` is missing");
}

#[test]
fn aliased_each_set_then_append() {
    let p = plan(vec![("y", applied("Vec", named("String")), vec![each("x")])]);
    let mut s: Staged<String> = Staged::new(&p);
    s.assign(&p, 0, FieldValue::Many(vec!["a".to_owned(), "b".to_owned()]));
    s.append(&p, 0, "c".to_owned());
    let vals = s.build(&p).ok().unwrap();
    match &vals[0] {
        Some(FieldValue::Many(l)) => assert_eq!(l, &vec!["a", "b", "c"]),
        _ => panic!("expected a list"),
    }
}

#[test]
fn aliased_each_append_then_set_replaces() {
    let p = plan(vec![("y", applied("Vec", named("String")), vec![each("x")])]);
    let mut s: Staged<String> = Staged::new(&p);
    s.append(&p, 0, "c".to_owned());
    s.assign(&p, 0, FieldValue::Many(vec![]));
    let vals = s.build(&p).ok().unwrap();
    assert!(matches!(&vals[0], Some(FieldValue::Many(l)) if l.is_empty()));
}
