use durable_rewrite::ast::{
    BlockStmt, Decl, Expr, ExprOrSpread, FnDecl, Module, ModuleItem, Pat, Prop, Stmt, UnaryOp,
    VarDecl, VarDeclKind, VarDeclarator,
};
use durable_rewrite::collector::Collector;
use durable_rewrite::config::{PluginConfig, TransformMode};
use durable_rewrite::query::{has_export_named, has_fn_decl_named, has_import};
use durable_rewrite::transform::WorkflowTransformer;

fn workflow_config() -> PluginConfig {
    PluginConfig::default()
}

fn transform_workflow(module: &mut Module) {
    let config = workflow_config();
    let mut collector = Collector::new(&config);
    collector.visit_module(module);
    let mut transformer = WorkflowTransformer::new(config, collector.info);
    transformer.visit_mut_module(module);
}

fn directive(value: &str) -> Stmt {
    Stmt::Expr(Box::new(Expr::Str(value.to_owned())))
}

fn ident(name: &str) -> Expr {
    Expr::Ident(name.to_owned())
}

fn plain_arg(e: Expr) -> ExprOrSpread {
    ExprOrSpread { spread: false, expr: e }
}

fn call(callee: Expr, args: Vec<ExprOrSpread>) -> Expr {
    Expr::Call { callee: Box::new(callee), args }
}

fn const_decl(name: &str, init: Expr) -> Stmt {
    Stmt::Decl(Decl::Var(VarDecl {
        kind: VarDeclKind::Const,
        decls: vec![VarDeclarator {
            name: Pat::Ident(name.to_owned()),
            init: Some(Box::new(init)),
        }],
    }))
}

#[test]
fn test_basic_workflow_transform() {
    // export async function myWorkflow(input) {
    //     "use workflow";
    //     const result = await doSomething(input);
    //     return result;
    // }
    let mut module = Module {
        body: vec![ModuleItem::ExportDecl(Decl::Fn(FnDecl {
            name: "myWorkflow".to_owned(),
            is_async: true,
            params: vec!["input".to_owned()],
            body: Some(BlockStmt {
                stmts: vec![
                    directive("use workflow"),
                    const_decl(
                        "result",
                        Expr::Await(Box::new(call(ident("doSomething"), vec![plain_arg(ident(
                            "input",
                        ))]))),
                    ),
                    Stmt::Return(Some(Box::new(ident("result")))),
                ],
            }),
        }))],
    };

    transform_workflow(&mut module);

    // Should have SDK import
    assert!(has_import(&module, "@bento/aws-durable"));

    // Should have exported handler
    assert!(has_export_named(&module, "myWorkflow"));

    // Should have __workflowMeta export
    assert!(has_export_named(&module, "__workflowMeta"));
}

#[test]
fn test_no_directive_passthrough() {
    // export function normalFunction(input) {
    //     return input + 1;
    // }
    let mut module = Module {
        body: vec![ModuleItem::ExportDecl(Decl::Fn(FnDecl {
            name: "normalFunction".to_owned(),
            is_async: false,
            params: vec!["input".to_owned()],
            body: Some(BlockStmt {
                stmts: vec![Stmt::Return(Some(Box::new(Expr::Bin {
                    op: durable_rewrite::ast::BinOp::Add,
                    left: Box::new(ident("input")),
                    right: Box::new(Expr::Num(1)),
                })))],
            }),
        }))],
    };

    transform_workflow(&mut module);

    // Should NOT have SDK import (no workflow detected)
    assert!(!has_import(&module, "@bento/aws-durable"));

    // Module should be unchanged (1 item)
    assert_eq!(module.body.len(), 1);
}

#[test]
fn test_step_function_collection() {
    // async function validateInput(data) {
    //     "use step";
    //     if (!data.email) throw new Error("Missing email");
    //     return data;
    // }
    // export async function signupWorkflow(input) {
    //     "use workflow";
    //     const validated = await validateInput(input);
    //     return validated;
    // }
    let step_fn = ModuleItem::Stmt(Stmt::Decl(Decl::Fn(FnDecl {
        name: "validateInput".to_owned(),
        is_async: true,
        params: vec!["data".to_owned()],
        body: Some(BlockStmt {
            stmts: vec![
                directive("use step"),
                Stmt::If {
                    cond: Box::new(Expr::Unary {
                        op: UnaryOp::Not,
                        arg: Box::new(Expr::Member {
                            obj: Box::new(ident("data")),
                            prop: "email".to_owned(),
                        }),
                    }),
                    cons: Box::new(Stmt::Throw(Box::new(Expr::New {
                        callee: Box::new(ident("Error")),
                        args: vec![plain_arg(Expr::Str("Missing email".to_owned()))],
                    }))),
                    alt: None,
                },
                Stmt::Return(Some(Box::new(ident("data")))),
            ],
        }),
    })));
    let workflow_fn = ModuleItem::ExportDecl(Decl::Fn(FnDecl {
        name: "signupWorkflow".to_owned(),
        is_async: true,
        params: vec!["input".to_owned()],
        body: Some(BlockStmt {
            stmts: vec![
                directive("use workflow"),
                const_decl(
                    "validated",
                    Expr::Await(Box::new(call(ident("validateInput"), vec![plain_arg(ident(
                        "input",
                    ))]))),
                ),
                Stmt::Return(Some(Box::new(ident("validated")))),
            ],
        }),
    }));
    let mut module = Module { body: vec![step_fn, workflow_fn] };

    transform_workflow(&mut module);

    // The step function should be removed (inlined)
    assert!(!has_fn_decl_named(&module, "validateInput"), "Step function should be removed");

    // Should have SDK import
    assert!(has_import(&module, "@bento/aws-durable"));
}

#[test]
fn test_invoke_generates_lambda_import() {
    // export async function orchestrator(input) {
    //     "use workflow";
    //     const result = await invoke("otherFn", input);
    //     return result;
    // }
    let mut module = Module {
        body: vec![ModuleItem::ExportDecl(Decl::Fn(FnDecl {
            name: "orchestrator".to_owned(),
            is_async: true,
            params: vec!["input".to_owned()],
            body: Some(BlockStmt {
                stmts: vec![
                    directive("use workflow"),
                    const_decl(
                        "result",
                        Expr::Await(Box::new(call(ident("invoke"), vec![
                            plain_arg(Expr::Str("otherFn".to_owned())),
                            plain_arg(ident("input")),
                        ]))),
                    ),
                    Stmt::Return(Some(Box::new(ident("result")))),
                ],
            }),
        }))],
    };

    transform_workflow(&mut module);

    // Should have Lambda SDK import
    assert!(has_import(&module, "@aws-sdk/client-lambda"));
}

#[test]
fn test_sleep_transform() {
    // export async function delayedWorkflow(input) {
    //     "use workflow";
    //     await sleep({ seconds: 60 });
    //     return "done";
    // }
    let mut module = Module {
        body: vec![ModuleItem::ExportDecl(Decl::Fn(FnDecl {
            name: "delayedWorkflow".to_owned(),
            is_async: true,
            params: vec!["input".to_owned()],
            body: Some(BlockStmt {
                stmts: vec![
                    directive("use workflow"),
                    Stmt::Expr(Box::new(Expr::Await(Box::new(call(ident("sleep"), vec![
                        plain_arg(Expr::Object(vec![Prop {
                            key: "seconds".to_owned(),
                            value: Expr::Num(60),
                        }])),
                    ]))))),
                    Stmt::Return(Some(Box::new(Expr::Str("done".to_owned())))),
                ],
            }),
        }))],
    };

    transform_workflow(&mut module);

    // Should have SDK import but not Lambda import
    assert!(has_import(&module, "@bento/aws-durable"));
    assert!(!has_import(&module, "@aws-sdk/client-lambda"));
}

#[test]
fn test_workflow_transform_is_idempotent() {
    // A transformed module has no directives left, so a second run of the
    // pass must leave it exactly as it found it.
    let mut module = Module {
        body: vec![ModuleItem::ExportDecl(Decl::Fn(FnDecl {
            name: "myWorkflow".to_owned(),
            is_async: true,
            params: vec!["input".to_owned()],
            body: Some(BlockStmt {
                stmts: vec![
                    directive("use workflow"),
                    Stmt::Return(Some(Box::new(ident("input")))),
                ],
            }),
        }))],
    };
    transform_workflow(&mut module);
    let len_after_first = module.body.len();
    let had_sdk_import = has_import(&module, "@bento/aws-durable");
    let had_meta = has_export_named(&module, "__workflowMeta");

    transform_workflow(&mut module);
    assert_eq!(module.body.len(), len_after_first);
    assert_eq!(has_import(&module, "@bento/aws-durable"), had_sdk_import);
    assert_eq!(has_export_named(&module, "__workflowMeta"), had_meta);
    // One SDK import, not two: the short-circuit fired.
    assert_eq!(durable_rewrite::query::count_imports(&module), 1);
}

#[test]
fn test_export_flags_round_trip() {
    // A default-export workflow function becomes an export-decorated wrapper;
    // a plain one becomes a plain const declaration statement.
    let body = || BlockStmt {
        stmts: vec![directive("use workflow"), Stmt::Return(Some(Box::new(ident("x"))))],
    };
    let mut default_module = Module {
        body: vec![ModuleItem::ExportDefaultFn(FnDecl {
            name: "wf".to_owned(),
            is_async: true,
            params: vec![],
            body: Some(body()),
        })],
    };
    transform_workflow(&mut default_module);
    assert!(has_export_named(&default_module, "wf"));

    let mut plain_module = Module {
        body: vec![ModuleItem::Stmt(Stmt::Decl(Decl::Fn(FnDecl {
            name: "wf".to_owned(),
            is_async: true,
            params: vec![],
            body: Some(body()),
        })))],
    };
    transform_workflow(&mut plain_module);
    assert!(!has_export_named(&plain_module, "wf"));
    // The wrapper is a plain const declaration statement.
    let mut found_plain_const = false;
    for item in &plain_module.body {
        if let ModuleItem::Stmt(Stmt::Decl(Decl::Var(v))) = item {
            for d in &v.decls {
                if let Pat::Ident(n) = &d.name {
                    if n == "wf" {
                        found_plain_const = true;
                    }
                }
            }
        }
    }
    assert!(found_plain_const);
}

#[test]
fn test_step_body_inlined_at_call_site() {
    // The step call's arguments are discarded and the step body appears as
    // the second argument of ctx.step("validateInput", ...).
    let step_fn = ModuleItem::Stmt(Stmt::Decl(Decl::Fn(FnDecl {
        name: "validateInput".to_owned(),
        is_async: true,
        params: vec!["data".to_owned()],
        body: Some(BlockStmt {
            stmts: vec![directive("use step"), Stmt::Return(Some(Box::new(ident("data"))))],
        }),
    })));
    let workflow_fn = ModuleItem::Stmt(Stmt::Decl(Decl::Fn(FnDecl {
        name: "wf".to_owned(),
        is_async: true,
        params: vec!["input".to_owned()],
        body: Some(BlockStmt {
            stmts: vec![
                directive("use workflow"),
                Stmt::Expr(Box::new(Expr::Await(Box::new(call(ident("validateInput"), vec![
                    plain_arg(ident("input")),
                ]))))),
            ],
        }),
    })));
    let mut module = Module { body: vec![step_fn, workflow_fn] };
    transform_workflow(&mut module);

    // Find the wrapper const wf = withDurableExecution(async (event, ctx) => {
    //   await ctx.step("validateInput", async () => { return data; }); });
    let mut found_step_call = false;
    for item in &module.body {
        if let ModuleItem::Stmt(Stmt::Decl(Decl::Var(v))) = item {
            for d in &v.decls {
                if let (Pat::Ident(n), Some(init)) = (&d.name, &d.init) {
                    if n == "wf" {
                        found_step_call = wrapper_body_has_step_call(init, "validateInput");
                    }
                }
            }
        }
    }
    assert!(found_step_call, "step body should be inlined as a ctx.step call");
}

fn wrapper_body_has_step_call(init: &Expr, step_name: &str) -> bool {
    // init = withDurableExecution(async (event, ctx) => { <stmts> })
    if let Expr::Call { args, .. } = init {
        if let Some(first) = args.first() {
            if let Expr::Arrow { body: durable_rewrite::ast::ArrowBody::Block(b), .. } = &first.expr
            {
                for s in &b.stmts {
                    if let Stmt::Expr(e) = s {
                        if let Expr::Await(inner) = &**e {
                            if is_ctx_step_call(inner, step_name) {
                                return true;
                            }
                        }
                    }
                }
            }
        }
    }
    false
}

fn is_ctx_step_call(e: &Expr, step_name: &str) -> bool {
    if let Expr::Call { callee, args } = e {
        if let Expr::Member { obj, prop } = &**callee {
            if let Expr::Ident(o) = &**obj {
                if o == "ctx" && prop == "step" && args.len() == 2 {
                    if let Expr::Str(s) = &args[0].expr {
                        // The second argument carries the step's own body.
                        return s == step_name
                            && matches!(&args[1].expr, Expr::Arrow { .. });
                    }
                }
            }
        }
    }
    false
}

#[test]
fn test_module_mode_default() {
    let config = workflow_config();
    assert!(matches!(config.mode, TransformMode::Workflow));
    assert_eq!(config.package_name, "@bento/aws-durable".to_owned());
    assert_eq!(config.env_prefix, "WORKFLOW_".to_owned());
}

#[test]
fn test_empty_module_passthrough() {
    let mut module = Module { body: vec![] };
    transform_workflow(&mut module);
    assert_eq!(module.body.len(), 0);
}
