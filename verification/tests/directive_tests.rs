use durable_rewrite::ast::{Expr, Stmt};
use durable_rewrite::directive::{is_use_step_directive, is_use_workflow_directive};

fn make_directive(value: &str) -> Stmt {
    Stmt::Expr(Box::new(Expr::Str(value.to_owned())))
}

#[test]
fn detects_use_workflow() {
    let stmt = make_directive("use workflow");
    assert!(is_use_workflow_directive(&stmt));
    assert!(!is_use_step_directive(&stmt));
}

#[test]
fn detects_use_step() {
    let stmt = make_directive("use step");
    assert!(is_use_step_directive(&stmt));
    assert!(!is_use_workflow_directive(&stmt));
}

#[test]
fn ignores_other_strings() {
    let stmt = make_directive("use strict");
    assert!(!is_use_workflow_directive(&stmt));
    assert!(!is_use_step_directive(&stmt));
}

#[test]
fn non_string_statements_are_no_directives() {
    let stmt = Stmt::Expr(Box::new(Expr::Ident("use workflow".to_owned())));
    assert!(!is_use_workflow_directive(&stmt));
    let empty = Stmt::Empty;
    assert!(!is_use_workflow_directive(&empty));
    assert!(!is_use_step_directive(&empty));
}
