use luau_types_re_export::ast::Block;
use luau_types_re_export::ast::GenericParameter;
use luau_types_re_export::ast::GenericParameterKind;
use luau_types_re_export::ast::Statement;
use luau_types_re_export::ast::SynthesizedProgram;
use luau_types_re_export::ast::TypeDeclaration;
use luau_types_re_export::ast::TypeExpression;
use luau_types_re_export::driver::plan_shim;

fn basic(name: &str) -> TypeExpression {
    TypeExpression::Basic(name.to_owned())
}

fn exported(
    name: &str,
    generics: Option<Vec<GenericParameter>>,
    definition: TypeExpression,
) -> Statement {
    Statement::TypeDecl(TypeDeclaration {
        name: name.to_owned(),
        generics,
        definition,
        exported: true,
    })
}

fn simple(name: &str, default: Option<TypeExpression>) -> GenericParameter {
    GenericParameter { name: name.to_owned(), kind: GenericParameterKind::Simple, default }
}

fn pack(name: &str, default: Option<TypeExpression>) -> GenericParameter {
    GenericParameter { name: name.to_owned(), kind: GenericParameterKind::Pack, default }
}

fn module_ref(name: &str) -> TypeExpression {
    TypeExpression::ModuleQualified("module".to_owned(), Box::new(basic(name)))
}

fn module_ref_generic(name: &str, args: Vec<TypeExpression>) -> TypeExpression {
    TypeExpression::ModuleQualified(
        "module".to_owned(),
        Box::new(TypeExpression::Generic(name.to_owned(), args)),
    )
}

fn run(stmts: Vec<Statement>) -> SynthesizedProgram {
    plan_shim(Ok(Block { stmts }), "../packages/module".to_owned()).unwrap()
}

#[test]
fn export_simple_type_name() {
    let prog = run(vec![exported("Value", None, basic("number"))]);
    assert_eq!(prog.require_binding, "module");
    assert_eq!(prog.require_path, "../packages/module");
    assert_eq!(prog.re_exports.len(), 1);
    assert_eq!(
        prog.re_exports[0],
        TypeDeclaration {
            name: "Value".to_owned(),
            generics: None,
            definition: module_ref("Value"),
            exported: true,
        }
    );
}

#[test]
fn export_simple_type_name_in_do_block() {
    let nested = Statement::Nested(Block {
        stmts: vec![exported("Value", None, basic("number"))],
    });
    let prog = run(vec![nested]);
    assert_eq!(prog.re_exports.len(), 1);
    assert_eq!(
        prog.re_exports[0],
        TypeDeclaration {
            name: "Value".to_owned(),
            generics: None,
            definition: module_ref("Value"),
            exported: true,
        }
    );
}

#[test]
fn export_simple_generic_type() {
    let decl = exported(
        "List",
        Some(vec![simple("T", None)]),
        TypeExpression::Array(Box::new(basic("T"))),
    );
    let prog = run(vec![decl]);
    assert_eq!(prog.re_exports.len(), 1);
    assert_eq!(
        prog.re_exports[0],
        TypeDeclaration {
            name: "List".to_owned(),
            generics: Some(vec![simple("T", None)]),
            definition: module_ref_generic("List", vec![basic("T")]),
            exported: true,
        }
    );
}

#[test]
fn export_simple_generic_type_with_default() {
    let decl = exported(
        "List",
        Some(vec![simple("T", Some(basic("string")))]),
        TypeExpression::Array(Box::new(basic("T"))),
    );
    let prog = run(vec![decl]);
    assert_eq!(
        prog.re_exports[0].generics,
        Some(vec![simple("T", Some(basic("string")))])
    );
    assert_eq!(
        prog.re_exports[0].definition,
        module_ref_generic("List", vec![basic("T")])
    );
}

#[test]
fn export_simple_generic_type_with_default_simple_array() {
    let decl = exported(
        "List",
        Some(vec![simple("T", Some(TypeExpression::Array(Box::new(basic("number")))))]),
        TypeExpression::Array(Box::new(basic("T"))),
    );
    let prog = run(vec![decl]);
    assert_eq!(
        prog.re_exports[0].generics,
        Some(vec![simple("T", Some(TypeExpression::Array(Box::new(basic("number")))))])
    );
}

#[test]
fn export_generic_type_with_unexported_default() {
    let decl = exported(
        "List",
        Some(vec![simple("T", Some(basic("Object")))]),
        TypeExpression::Array(Box::new(basic("T"))),
    );
    let prog = run(vec![decl]);
    assert_eq!(prog.re_exports[0].generics, Some(vec![simple("T", None)]));
    assert_eq!(
        prog.re_exports[0].definition,
        module_ref_generic("List", vec![basic("T")])
    );
}

#[test]
fn export_generic_type_with_unexported_default_array_of_object() {
    let decl = exported(
        "List",
        Some(vec![simple("T", Some(TypeExpression::Array(Box::new(basic("Object")))))]),
        TypeExpression::Array(Box::new(basic("T"))),
    );
    let prog = run(vec![decl]);
    assert_eq!(prog.re_exports[0].generics, Some(vec![simple("T", None)]));
}

#[test]
fn export_generic_type_with_generic_pack() {
    let decl = exported(
        "Fn",
        Some(vec![pack("R", None)]),
        TypeExpression::Callback(
            Vec::new(),
            Box::new(TypeExpression::VariadicPack("R".to_owned())),
        ),
    );
    let prog = run(vec![decl]);
    assert_eq!(prog.re_exports[0].generics, Some(vec![pack("R", None)]));
    assert_eq!(
        prog.re_exports[0].definition,
        module_ref_generic("Fn", vec![TypeExpression::GenericPack("R".to_owned())])
    );
}

#[test]
fn export_generic_type_with_generic_pack_with_default() {
    let decl = exported(
        "Fn",
        Some(vec![pack("R", Some(TypeExpression::Tuple(Vec::new())))]),
        TypeExpression::Callback(
            Vec::new(),
            Box::new(TypeExpression::VariadicPack("R".to_owned())),
        ),
    );
    let prog = run(vec![decl]);
    assert_eq!(
        prog.re_exports[0].generics,
        Some(vec![pack("R", Some(TypeExpression::Tuple(Vec::new())))])
    );
}

#[test]
fn export_generic_type_with_type_name_and_generic_pack() {
    let decl = exported(
        "Fn",
        Some(vec![simple("Arg", None), pack("R", None)]),
        TypeExpression::Callback(
            vec![basic("Arg")],
            Box::new(TypeExpression::VariadicPack("R".to_owned())),
        ),
    );
    let prog = run(vec![decl]);
    assert_eq!(
        prog.re_exports[0].generics,
        Some(vec![simple("Arg", None), pack("R", None)])
    );
    assert_eq!(
        prog.re_exports[0].definition,
        module_ref_generic(
            "Fn",
            vec![basic("Arg"), TypeExpression::GenericPack("R".to_owned())]
        )
    );
}

#[test]
fn order_preserved_across_nesting() {
    let stmts = vec![
        exported("A", None, basic("number")),
        Statement::Nested(Block { stmts: vec![exported("B", None, basic("string"))] }),
        exported("C", None, basic("boolean")),
    ];
    let prog = run(stmts);
    let names: Vec<&str> = prog.re_exports.iter().map(|d| d.name.as_str()).collect();
    assert_eq!(names, vec!["A", "B", "C"]);
}

#[test]
fn non_exported_declaration_is_omitted() {
    let unexported = Statement::TypeDecl(TypeDeclaration {
        name: "Hidden".to_owned(),
        generics: None,
        definition: basic("number"),
        exported: false,
    });
    let prog = run(vec![
        unexported,
        Statement::Other,
        exported("Seen", None, basic("number")),
    ]);
    assert_eq!(prog.re_exports.len(), 1);
    assert_eq!(prog.re_exports[0].name, "Seen");
}

#[test]
fn empty_module_yields_no_re_exports() {
    let prog = run(Vec::new());
    assert_eq!(prog.re_exports.len(), 0);
    assert_eq!(prog.require_binding, "module");
}

#[test]
fn rerun_yields_identical_output() {
    let build = || {
        run(vec![
            exported("A", Some(vec![simple("T", Some(basic("Object")))]), basic("T")),
            Statement::Nested(Block { stmts: vec![exported("B", None, basic("string"))] }),
        ])
    };
    assert_eq!(build(), build());
}
