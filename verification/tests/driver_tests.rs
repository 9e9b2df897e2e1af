use luau_types_re_export::ast::Block;
use luau_types_re_export::driver::format_failure_message;
use luau_types_re_export::driver::parse_failure_message;
use luau_types_re_export::driver::plan_shim;

#[test]
fn parse_failure_without_diagnostics() {
    let msg = parse_failure_message(&Vec::new());
    assert_eq!(msg, "failed to parse code");
}

#[test]
fn parse_failure_with_one_diagnostic() {
    let msg = parse_failure_message(&vec!["unexpected token".to_owned()]);
    assert_eq!(msg, "unable to parse code: unexpected token");
}

#[test]
fn parse_failure_with_many_diagnostics() {
    let msg = parse_failure_message(&vec![
        "unexpected token".to_owned(),
        "unclosed string".to_owned(),
        "bad number".to_owned(),
    ]);
    assert_eq!(
        msg,
        "unable to parse code:\n- unexpected token\n- unclosed string\n- bad number"
    );
}

#[test]
fn format_failure_is_wrapped() {
    let msg = format_failure_message("broken tree");
    assert_eq!(msg, "unable to format code: broken tree");
}

#[test]
fn parse_failure_aborts_the_call() {
    let r = plan_shim(
        Err(vec!["unexpected token".to_owned()]),
        "../packages/module".to_owned(),
    );
    assert_eq!(r.unwrap_err(), "unable to parse code: unexpected token");
}

#[test]
fn parsed_module_yields_a_shim() {
    let r = plan_shim(Ok(Block { stmts: Vec::new() }), "path/to/module".to_owned());
    let prog = r.unwrap();
    assert_eq!(prog.require_path, "path/to/module");
    assert_eq!(prog.require_binding, "module");
    assert!(prog.re_exports.is_empty());
}
