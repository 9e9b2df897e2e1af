use luau_types_re_export::ast::Block;
use luau_types_re_export::ast::GenericParameter;
use luau_types_re_export::ast::GenericParameterKind;
use luau_types_re_export::ast::Statement;
use luau_types_re_export::ast::TypeDeclaration;
use luau_types_re_export::ast::TypeExpression;
use luau_types_re_export::collect::collect;
use luau_types_re_export::rebuild::rebuild;
use luau_types_re_export::shim::build_shim;

fn param(
    name: &str,
    kind: GenericParameterKind,
    default: Option<TypeExpression>,
) -> GenericParameter {
    GenericParameter { name: name.to_owned(), kind, default }
}

#[test]
fn rebuild_keeps_names_kinds_and_order() {
    let rebuilt = rebuild(vec![
        param("A", GenericParameterKind::Simple, None),
        param(
            "B",
            GenericParameterKind::Simple,
            Some(TypeExpression::Basic("Hidden".to_owned())),
        ),
        param(
            "C",
            GenericParameterKind::Pack,
            Some(TypeExpression::Basic("string".to_owned())),
        ),
    ]);
    assert_eq!(
        rebuilt,
        vec![
            param("A", GenericParameterKind::Simple, None),
            param("B", GenericParameterKind::Simple, None),
            param(
                "C",
                GenericParameterKind::Pack,
                Some(TypeExpression::Basic("string".to_owned())),
            ),
        ]
    );
}

#[test]
fn collect_uses_the_given_binding() {
    let block = Block {
        stmts: vec![Statement::TypeDecl(TypeDeclaration {
            name: "Value".to_owned(),
            generics: None,
            definition: TypeExpression::Basic("number".to_owned()),
            exported: true,
        })],
    };
    let decls = collect(block, "pkg");
    assert_eq!(decls.len(), 1);
    assert_eq!(
        decls[0].definition,
        TypeExpression::ModuleQualified(
            "pkg".to_owned(),
            Box::new(TypeExpression::Basic("Value".to_owned())),
        )
    );
}

#[test]
fn build_shim_assembles_the_three_parts() {
    let block = Block {
        stmts: vec![Statement::TypeDecl(TypeDeclaration {
            name: "Value".to_owned(),
            generics: None,
            definition: TypeExpression::Basic("number".to_owned()),
            exported: true,
        })],
    };
    let program = build_shim(block, "a/b/c".to_owned());
    assert_eq!(program.require_binding, "module");
    assert_eq!(program.require_path, "a/b/c");
    assert_eq!(program.re_exports.len(), 1);
    assert_eq!(program.re_exports[0].name, "Value");
}
