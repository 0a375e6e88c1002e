use durable_rewrite::ast::{
    ArrowBody, BlockStmt, Decl, Expr, ExprOrSpread, FnDecl, Module, ModuleItem, Pat, Prop, Stmt,
};
use durable_rewrite::codegen::create_workflow_descriptor;
use durable_rewrite::collector::Collector;
use durable_rewrite::config::PluginConfig;
use durable_rewrite::query::{count_imports, has_import};
use durable_rewrite::transform::WorkflowTransformer;

fn transform_workflow(module: &mut Module) {
    let config = PluginConfig::default();
    let mut collector = Collector::new(&config);
    collector.visit_module(module);
    let mut transformer = WorkflowTransformer::new(config, collector.info);
    transformer.visit_mut_module(module);
}

fn directive(value: &str) -> Stmt {
    Stmt::Expr(Box::new(Expr::Str(value.to_owned())))
}

fn ident(name: &str) -> Expr {
    Expr::Ident(name.to_owned())
}

fn plain_arg(e: Expr) -> ExprOrSpread {
    ExprOrSpread { spread: false, expr: e }
}

fn workflow_fn(name: &str, extra_stmts: Vec<Stmt>) -> ModuleItem {
    let mut stmts = vec![directive("use workflow")];
    stmts.extend(extra_stmts);
    ModuleItem::ExportDecl(Decl::Fn(FnDecl {
        name: name.to_owned(),
        is_async: true,
        params: vec!["input".to_owned()],
        body: Some(BlockStmt { stmts }),
    }))
}

fn step_fn(name: &str) -> ModuleItem {
    ModuleItem::Stmt(Stmt::Decl(Decl::Fn(FnDecl {
        name: name.to_owned(),
        is_async: true,
        params: vec![],
        body: Some(BlockStmt {
            stmts: vec![directive("use step"), Stmt::Return(Some(Box::new(Expr::Num(1))))],
        }),
    })))
}

/// Walk to the statements of the wrapper named `name`.
fn wrapper_stmts<'a>(m: &'a Module, name: &str) -> Option<&'a Vec<Stmt>> {
    for item in &m.body {
        let v = match item {
            ModuleItem::Stmt(Stmt::Decl(Decl::Var(v))) => v,
            ModuleItem::ExportDecl(Decl::Var(v)) => v,
            _ => continue,
        };
        for d in &v.decls {
            if let (Pat::Ident(n), Some(init)) = (&d.name, &d.init) {
                if n == name {
                    if let Expr::Call { args, .. } = &**init {
                        if let Some(first) = args.first() {
                            if let Expr::Arrow { body: ArrowBody::Block(b), .. } = &first.expr {
                                return Some(&b.stmts);
                            }
                        }
                    }
                }
            }
        }
    }
    None
}

#[test]
fn test_descriptor_env_name_is_uppercased() {
    // The environment variable name is the prefix plus the local name in
    // upper case: a mixed-case local must not pass through unchanged.
    let item = create_workflow_descriptor("myWorkflow", "WORKFLOW_");
    if let ModuleItem::Stmt(Stmt::Decl(Decl::Var(v))) = &item {
        if let Some(init) = &v.decls[0].init {
            if let Expr::Object(props) = &**init {
                if let Expr::Member { prop, .. } = &props[2].value {
                    assert_eq!(prop, "WORKFLOW_MYWORKFLOW");
                    return;
                }
            }
        }
    }
    panic!("descriptor shape unexpected");
}

#[test]
fn test_meta_export_lists_all_steps() {
    // The __workflowMeta export names the first workflow and every collected
    // step, called or not.
    let mut module = Module {
        body: vec![
            step_fn("stepOne"),
            step_fn("stepTwo"),
            workflow_fn("wf", vec![Stmt::Expr(Box::new(Expr::Await(Box::new(Expr::Call {
                callee: Box::new(ident("stepOne")),
                args: vec![],
            }))))]),
        ],
    };
    transform_workflow(&mut module);

    let mut meta_checked = false;
    for item in &module.body {
        if let ModuleItem::ExportDecl(Decl::Var(v)) = item {
            if let (Pat::Ident(n), Some(init)) = (&v.decls[0].name, &v.decls[0].init) {
                if n == "__workflowMeta" {
                    if let Expr::Object(props) = &**init {
                        assert_eq!(props.len(), 2);
                        assert_eq!(props[0].key, "name");
                        assert!(matches!(&props[0].value, Expr::Str(s) if s == "wf"));
                        assert_eq!(props[1].key, "steps");
                        if let Expr::Array(elems) = &props[1].value {
                            assert_eq!(elems.len(), 2);
                            assert!(matches!(&elems[0].expr, Expr::Str(s) if s == "stepOne"));
                            assert!(matches!(&elems[1].expr, Expr::Str(s) if s == "stepTwo"));
                            meta_checked = true;
                        }
                    }
                }
            }
        }
    }
    assert!(meta_checked, "__workflowMeta export should list both steps");
}

#[test]
fn test_sleep_becomes_ctx_wait() {
    let sleep_stmt = Stmt::Expr(Box::new(Expr::Await(Box::new(Expr::Call {
        callee: Box::new(ident("sleep")),
        args: vec![plain_arg(Expr::Object(vec![Prop {
            key: "seconds".to_owned(),
            value: Expr::Num(60),
        }]))],
    }))));
    let mut module = Module { body: vec![workflow_fn("wf", vec![sleep_stmt])] };
    transform_workflow(&mut module);

    let stmts = wrapper_stmts(&module, "wf").expect("wrapper body");
    assert_eq!(stmts.len(), 1);
    if let Stmt::Expr(e) = &stmts[0] {
        if let Expr::Await(inner) = &**e {
            if let Expr::Call { callee, args } = &**inner {
                if let Expr::Member { obj, prop } = &**callee {
                    assert!(matches!(&**obj, Expr::Ident(o) if o == "ctx"));
                    assert_eq!(prop, "wait");
                    assert_eq!(args.len(), 1);
                    assert!(matches!(&args[0].expr, Expr::Object(props) if props[0].key == "seconds"));
                    return;
                }
            }
        }
    }
    panic!("sleep call should become ctx.wait");
}

#[test]
fn test_wait_for_callback_forwards_arguments() {
    let wfc_stmt = Stmt::Expr(Box::new(Expr::Await(Box::new(Expr::Call {
        callee: Box::new(ident("waitForCallback")),
        args: vec![
            plain_arg(Expr::Str("approval".to_owned())),
            plain_arg(ident("setup")),
        ],
    }))));
    let mut module = Module { body: vec![workflow_fn("wf", vec![wfc_stmt])] };
    transform_workflow(&mut module);

    let stmts = wrapper_stmts(&module, "wf").expect("wrapper body");
    if let Stmt::Expr(e) = &stmts[0] {
        if let Expr::Await(inner) = &**e {
            if let Expr::Call { callee, args } = &**inner {
                if let Expr::Member { obj, prop } = &**callee {
                    assert!(matches!(&**obj, Expr::Ident(o) if o == "ctx"));
                    assert_eq!(prop, "waitForCallback");
                    // The argument list is forwarded verbatim.
                    assert_eq!(args.len(), 2);
                    assert!(matches!(&args[0].expr, Expr::Str(s) if s == "approval"));
                    assert!(matches!(&args[1].expr, Expr::Ident(n) if n == "setup"));
                    return;
                }
            }
        }
    }
    panic!("waitForCallback should become ctx.waitForCallback");
}

#[test]
fn test_invoke_becomes_invoke_step() {
    let invoke_stmt = Stmt::Expr(Box::new(Expr::Await(Box::new(Expr::Call {
        callee: Box::new(ident("invoke")),
        args: vec![
            plain_arg(Expr::Str("otherFn".to_owned())),
            plain_arg(ident("payload")),
        ],
    }))));
    let mut module = Module { body: vec![workflow_fn("wf", vec![invoke_stmt])] };
    transform_workflow(&mut module);

    let stmts = wrapper_stmts(&module, "wf").expect("wrapper body");
    if let Stmt::Expr(e) = &stmts[0] {
        if let Expr::Await(outer) = &**e {
            if let Expr::Call { callee, args } = &**outer {
                if let Expr::Member { prop, .. } = &**callee {
                    assert_eq!(prop, "step");
                    assert!(matches!(&args[0].expr, Expr::Str(s) if s == "invoke"));
                    // The step block declares the client, sends the command
                    // and returns the decoded response.
                    if let Expr::Arrow { body: ArrowBody::Block(b), .. } = &args[1].expr {
                        assert_eq!(b.stmts.len(), 3);
                        assert!(matches!(&b.stmts[2], Stmt::Return(Some(_))));
                        return;
                    }
                }
            }
        }
    }
    panic!("invoke should become a ctx.step(\"invoke\", ...) block");
}

#[test]
fn test_invoke_with_one_argument_left_alone() {
    // `invoke` with fewer than two arguments is not rewritten; the call
    // stays and only its arguments are recursed into.
    let invoke_stmt = Stmt::Expr(Box::new(Expr::Await(Box::new(Expr::Call {
        callee: Box::new(ident("invoke")),
        args: vec![plain_arg(Expr::Str("otherFn".to_owned()))],
    }))));
    let mut module = Module { body: vec![workflow_fn("wf", vec![invoke_stmt])] };
    transform_workflow(&mut module);

    let stmts = wrapper_stmts(&module, "wf").expect("wrapper body");
    if let Stmt::Expr(e) = &stmts[0] {
        if let Expr::Await(inner) = &**e {
            if let Expr::Call { callee, args } = &**inner {
                assert!(matches!(&**callee, Expr::Ident(n) if n == "invoke"));
                assert_eq!(args.len(), 1);
                return;
            }
        }
    }
    panic!("an under-applied invoke call should pass through");
}

#[test]
fn test_module_level_directive_participates() {
    // A bare top-level "use workflow" directive makes the module participate:
    // the directive is dropped and the SDK import is prepended, but with no
    // workflow function there is no meta export.
    let mut module = Module {
        body: vec![
            ModuleItem::Stmt(directive("use workflow")),
            ModuleItem::Stmt(Stmt::Expr(Box::new(ident("rest")))),
        ],
    };
    transform_workflow(&mut module);

    assert!(has_import(&module, "@bento/aws-durable"));
    assert_eq!(count_imports(&module), 1);
    assert_eq!(module.body.len(), 2);
    assert!(matches!(&module.body[1], ModuleItem::Stmt(Stmt::Expr(_))));
}
