use record_derive::builder::{missing_field_message, FieldDirective, OperationKind};
use record_derive::model::{
    Annotation, AnnotationArgs, AttrToken, Declaration, DeclarationShape, FieldDeclaration, GenError,
    TypeExpr,
};
use record_derive::shape::{inner_type_of_option, inner_type_of_vec, is_option};

fn named(s: &str) -> TypeExpr {
    TypeExpr::Named(s.to_owned())
}

fn applied(w: &str, inner: TypeExpr) -> TypeExpr {
    TypeExpr::Applied(w.to_owned(), Box::new(inner))
}

fn field(name: &str, ty: TypeExpr, annotations: Vec<Annotation>) -> FieldDeclaration {
    FieldDeclaration { name: name.to_owned(), ty, annotations }
}

fn builder_list(tokens: Vec<AttrToken>) -> Annotation {
    Annotation { name: "builder".to_owned(), args: AnnotationArgs::List(tokens) }
}

fn each(v: &str) -> Annotation {
    builder_list(vec![
        AttrToken::Ident("each".to_owned()),
        AttrToken::Punct('='),
        AttrToken::Literal(format!("\"{}\"", v)),
    ])
}

fn record(name: &str, fields: Vec<FieldDeclaration>) -> Declaration {
    Declaration {
        name: name.to_owned(),
        generics: vec![],
        shape: DeclarationShape::NamedFields,
        fields,
    }
}

fn command_declaration() -> Declaration {
    record(
        "Command",
        vec![
            field("executable", named("String"), vec![]),
            field("args", applied("Vec", named("String")), vec![each("arg")]),
            field("env", applied("Vec", named("String")), vec![each("env")]),
            field("current_dir", applied("Option", named("String")), vec![]),
        ],
    )
}

fn err_of(d: &Declaration) -> GenError {
    match record_derive::builder::derive(d) {
        Err(e) => e,
        Ok(_) => panic!("generation should fail"),
    }
}

#[test]
fn plans_command_record() {
    let plan = record_derive::builder::derive(&command_declaration()).ok().unwrap();
    assert_eq!(plan.record, "Command");
    assert_eq!(plan.builder_name, "CommandBuilder");
    assert_eq!(plan.fields.len(), 4);
    let exe = &plan.fields[0];
    assert_eq!(exe.name, "executable");
    assert!(!exe.optional);
    assert!(matches!(exe.directive, FieldDirective::Plain));
    assert!(matches!(&exe.stored, TypeExpr::Named(n) if n == "String"));
    let args = &plan.fields[1];
    assert!(matches!(&args.directive, FieldDirective::AliasedCollected(a, TypeExpr::Named(t)) if a == "arg" && t == "String"));
    let env = &plan.fields[2];
    assert!(matches!(&env.directive, FieldDirective::Collected(TypeExpr::Named(t)) if t == "String"));
    let dir = &plan.fields[3];
    assert!(dir.optional);
    assert!(matches!(&dir.stored, TypeExpr::Named(n) if n == "String"));
}

#[test]
fn self_named_each_has_only_an_appender() {
    let plan = record_derive::builder::derive(&command_declaration()).ok().unwrap();
    let ops = plan.fields[2].operations();
    assert_eq!(ops.len(), 1);
    assert_eq!(ops[0].method, "env");
    assert!(ops[0].kind == OperationKind::Append);
    assert!(matches!(&ops[0].param, TypeExpr::Named(t) if t == "String"));
}

#[test]
fn aliased_each_has_setter_and_appender() {
    let plan = record_derive::builder::derive(&command_declaration()).ok().unwrap();
    let ops = plan.fields[1].operations();
    assert_eq!(ops.len(), 2);
    assert_eq!(ops[0].method, "args");
    assert!(ops[0].kind == OperationKind::Assign);
    assert!(matches!(&ops[0].param, TypeExpr::Applied(w, _) if w == "Vec"));
    assert_eq!(ops[1].method, "arg");
    assert!(ops[1].kind == OperationKind::Append);
}

#[test]
fn optional_field_setter_takes_inner_type() {
    let plan = record_derive::builder::derive(&command_declaration()).ok().unwrap();
    let ops = plan.fields[3].operations();
    assert_eq!(ops.len(), 1);
    assert_eq!(ops[0].method, "current_dir");
    assert!(ops[0].kind == OperationKind::Assign);
    assert!(matches!(&ops[0].param, TypeExpr::Named(t) if t == "String"));
}

#[test]
fn unknown_builder_key_fails() {
    let bad = builder_list(vec![
        AttrToken::Ident("foo".to_owned()),
        AttrToken::Punct('='),
        AttrToken::Literal("\"bar\"".to_owned()),
    ]);
    let d = record("R", vec![field("xs", applied("Vec", named("u8")), vec![bad])]);
    match err_of(&d) {
        GenError::UnknownBuilderKey { field, key } => {
            assert_eq!(field, "xs");
            assert_eq!(key, "foo");
        }
        _ => panic!("wrong error"),
    }
}

#[test]
fn unknown_key_after_each_fails() {
    let bad = builder_list(vec![
        AttrToken::Ident("each".to_owned()),
        AttrToken::Punct('='),
        AttrToken::Literal("\"x\"".to_owned()),
        AttrToken::Punct(','),
        AttrToken::Ident("other".to_owned()),
        AttrToken::Punct('='),
        AttrToken::Literal("\"y\"".to_owned()),
    ]);
    let d = record("R", vec![field("xs", applied("Vec", named("u8")), vec![bad])]);
    assert!(matches!(err_of(&d), GenError::UnknownBuilderKey { .. }));
}

#[test]
fn each_on_non_vec_field_fails() {
    let d = record("R", vec![field("name", named("String"), vec![each("name")])]);
    match err_of(&d) {
        GenError::NotRepeated { field } => assert_eq!(field, "name"),
        _ => panic!("wrong error"),
    }
}

#[test]
fn each_on_optional_vec_fails() {
    let ty = applied("Option", applied("Vec", named("String")));
    let d = record("R", vec![field("items", ty, vec![each("item")])]);
    assert!(matches!(err_of(&d), GenError::NotRepeated { .. }));
}

#[test]
fn malformed_builder_annotations_fail() {
    let bare = Annotation { name: "builder".to_owned(), args: AnnotationArgs::Bare };
    let d = record("R", vec![field("v", applied("Vec", named("u8")), vec![bare])]);
    assert!(matches!(err_of(&d), GenError::MalformedBuilder { .. }));

    let no_eq = builder_list(vec![AttrToken::Ident("each".to_owned())]);
    let d = record("R", vec![field("v", applied("Vec", named("u8")), vec![no_eq])]);
    assert!(matches!(err_of(&d), GenError::MalformedBuilder { .. }));

    let not_string = builder_list(vec![
        AttrToken::Ident("each".to_owned()),
        AttrToken::Punct('='),
        AttrToken::Literal("42".to_owned()),
    ]);
    let d = record("R", vec![field("v", applied("Vec", named("u8")), vec![not_string])]);
    assert!(matches!(err_of(&d), GenError::MalformedBuilder { .. }));

    let group = builder_list(vec![AttrToken::Group]);
    let d = record("R", vec![field("v", applied("Vec", named("u8")), vec![group])]);
    assert!(matches!(err_of(&d), GenError::MalformedBuilder { .. }));
}

#[test]
fn each_value_must_be_identifier() {
    let d = record("R", vec![field("v", applied("Vec", named("u8")), vec![each("not an ident")])]);
    match err_of(&d) {
        GenError::InvalidEachName { field } => assert_eq!(field, "v"),
        _ => panic!("wrong error"),
    }
    let d = record("R", vec![field("v", applied("Vec", named("u8")), vec![each("_")])]);
    assert!(matches!(err_of(&d), GenError::InvalidEachName { .. }));
    let d = record("R", vec![field("v", applied("Vec", named("u8")), vec![each("9x")])]);
    assert!(matches!(err_of(&d), GenError::InvalidEachName { .. }));
}

#[test]
fn trailing_comma_and_later_each_wins() {
    let ann = builder_list(vec![
        AttrToken::Ident("each".to_owned()),
        AttrToken::Punct('='),
        AttrToken::Literal("\"a\"".to_owned()),
        AttrToken::Punct(','),
        AttrToken::Ident("each".to_owned()),
        AttrToken::Punct('='),
        AttrToken::Literal("\"b_2\"".to_owned()),
        AttrToken::Punct(','),
    ]);
    let d = record("R", vec![field("v", applied("Vec", named("u8")), vec![ann])]);
    let plan = record_derive::builder::derive(&d).ok().unwrap();
    assert!(matches!(&plan.fields[0].directive, FieldDirective::AliasedCollected(a, _) if a == "b_2"));
}

#[test]
fn empty_builder_list_is_no_directive() {
    let d = record("R", vec![field("v", named("u8"), vec![builder_list(vec![])])]);
    let plan = record_derive::builder::derive(&d).ok().unwrap();
    assert!(matches!(plan.fields[0].directive, FieldDirective::Plain));
}

#[test]
fn foreign_annotations_are_ignored() {
    let doc = Annotation { name: "doc".to_owned(), args: AnnotationArgs::Value("\"x\"".to_owned()) };
    let d = record("R", vec![field("v", named("u8"), vec![doc])]);
    assert!(record_derive::builder::derive(&d).is_ok());
}

#[test]
fn first_failing_field_is_reported() {
    let d = record(
        "R",
        vec![
            field("ok", named("u8"), vec![]),
            field("a", named("u8"), vec![each("a")]),
            field("b", named("u8"), vec![each("b")]),
        ],
    );
    match err_of(&d) {
        GenError::NotRepeated { field } => assert_eq!(field, "a"),
        _ => panic!("wrong error"),
    }
}

#[test]
fn unsupported_shapes_are_refused() {
    for shape in [
        DeclarationShape::TupleFields,
        DeclarationShape::Unit,
        DeclarationShape::Enum,
        DeclarationShape::Union,
    ] {
        let d = Declaration { name: "X".to_owned(), generics: vec![], shape, fields: vec![] };
        assert!(matches!(err_of(&d), GenError::UnsupportedShape));
    }
}

#[test]
fn empty_record_plans_no_fields() {
    let plan = record_derive::builder::derive(&record("Empty", vec![])).ok().unwrap();
    assert!(plan.fields.is_empty());
    assert_eq!(plan.builder_name, "EmptyBuilder");
}

#[test]
fn classifier_looks_at_outermost_wrapper_only() {
    let t = applied("Option", applied("Option", named("u8")));
    assert!(is_option(&t));
    assert!(matches!(inner_type_of_option(&t), Some(TypeExpr::Applied(w, _)) if w == "Option"));
    assert!(inner_type_of_vec(&t).is_none());
    assert!(!is_option(&named("Option")));
    assert!(!is_option(&applied("Optional", named("u8"))));
    assert!(matches!(inner_type_of_vec(&applied("Vec", named("u8"))), Some(TypeExpr::Named(n)) if n == "u8"));
}

#[test]
fn missing_message_names_field() {
    assert_eq!(missing_field_message(&"executable".to_owned()), "field `executable` is missing");
}
