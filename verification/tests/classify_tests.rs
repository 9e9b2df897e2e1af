use luau_types_re_export::ast::TypeExpression;
use luau_types_re_export::ast::TypeField;
use luau_types_re_export::ast::TypeFieldKey;
use luau_types_re_export::classify::has_private_type;

fn basic(name: &str) -> TypeExpression {
    TypeExpression::Basic(name.to_owned())
}

#[test]
fn primitive_names_are_not_foreign() {
    for name in [
        "string", "boolean", "nil", "number", "userdata", "buffer", "thread", "never", "any",
        "unknown",
    ] {
        assert!(!has_private_type(&basic(name)), "{name} should not be foreign");
    }
}

#[test]
fn user_defined_name_is_foreign() {
    assert!(has_private_type(&basic("Object")));
}

#[test]
fn literals_are_not_foreign() {
    assert!(!has_private_type(&TypeExpression::StringLiteral("\"x\"".to_owned())));
    assert!(!has_private_type(&TypeExpression::BooleanLiteral(true)));
}

#[test]
fn nested_foreign_member_is_found() {
    let deep = TypeExpression::Union(vec![
        basic("number"),
        TypeExpression::Optional(Box::new(TypeExpression::Array(Box::new(basic("Secret"))))),
    ]);
    assert!(has_private_type(&deep));
}

#[test]
fn safe_composite_is_not_foreign() {
    let safe = TypeExpression::Intersection(vec![
        TypeExpression::Tuple(vec![basic("number"), basic("string")]),
        TypeExpression::Callback(vec![basic("boolean")], Box::new(basic("nil"))),
    ]);
    assert!(!has_private_type(&safe));
}

#[test]
fn table_with_named_safe_fields_is_not_foreign() {
    let table = TypeExpression::Table(vec![
        TypeField { key: TypeFieldKey::Name("count".to_owned()), value: basic("number") },
        TypeField {
            key: TypeFieldKey::IndexSignature(Box::new(basic("string"))),
            value: basic("boolean"),
        },
    ]);
    assert!(!has_private_type(&table));
}

#[test]
fn table_with_unmodeled_key_is_foreign() {
    let table = TypeExpression::Table(vec![TypeField {
        key: TypeFieldKey::Other,
        value: basic("number"),
    }]);
    assert!(has_private_type(&table));
}

#[test]
fn unsupported_shapes_are_foreign() {
    assert!(has_private_type(&TypeExpression::Generic("Map".to_owned(), vec![basic("string")])));
    assert!(has_private_type(&TypeExpression::GenericPack("R".to_owned())));
    assert!(has_private_type(&TypeExpression::Typeof));
    assert!(has_private_type(&TypeExpression::ModuleQualified(
        "m".to_owned(),
        Box::new(basic("T")),
    )));
    assert!(has_private_type(&TypeExpression::VariadicPack("R".to_owned())));
    assert!(has_private_type(&TypeExpression::Other));
}

#[test]
fn empty_tuple_is_not_foreign() {
    assert!(!has_private_type(&TypeExpression::Tuple(Vec::new())));
}
