use durable_rewrite::ast::{
    BlockStmt, Decl, Expr, ExprOrSpread, FnDecl, ImportDecl, ImportSpecifier, Module, ModuleItem,
    Pat, Prop, Stmt,
};
use durable_rewrite::collector::Collector;
use durable_rewrite::config::{default_env_prefix, default_package_name, PluginConfig, TransformMode};
use durable_rewrite::query::{count_imports, count_var_decl_stmts, has_import};
use durable_rewrite::transform::WorkflowTransformer;

fn client_config() -> PluginConfig {
    PluginConfig {
        mode: TransformMode::Client,
        package_name: default_package_name(),
        env_prefix: default_env_prefix(),
    }
}

fn transform_client(module: &mut Module) {
    let config = client_config();
    let mut collector = Collector::new(&config);
    collector.visit_module(module);
    let mut transformer = WorkflowTransformer::new(config, collector.info);
    transformer.visit_mut_module(module);
}

fn named_import(local: &str, src: &str) -> ModuleItem {
    ModuleItem::Import(ImportDecl {
        specifiers: vec![ImportSpecifier::Named { local: local.to_owned(), imported: None }],
        src: src.to_owned(),
    })
}

fn ident(name: &str) -> Expr {
    Expr::Ident(name.to_owned())
}

fn await_call(callee: &str, args: Vec<ExprOrSpread>) -> Stmt {
    Stmt::Expr(Box::new(Expr::Await(Box::new(Expr::Call {
        callee: Box::new(ident(callee)),
        args,
    }))))
}

fn has_var_decl_named(m: &Module, name: &str) -> bool {
    m.body.iter().any(|item| {
        if let ModuleItem::Stmt(Stmt::Decl(Decl::Var(v))) = item {
            v.decls.iter().any(|d| {
                if let Pat::Ident(n) = &d.name {
                    n == name
                } else {
                    false
                }
            })
        } else {
            false
        }
    })
}

#[test]
fn test_client_mode_replaces_imports() {
    // import { myWorkflow } from "./workflows/my-workflow";
    // import { someUtil } from "some-package";
    // async function main() { await myWorkflow({ data: "test" }); }
    let mut module = Module {
        body: vec![
            named_import("myWorkflow", "./workflows/my-workflow"),
            named_import("someUtil", "some-package"),
            ModuleItem::Stmt(Stmt::Decl(Decl::Fn(FnDecl {
                name: "main".to_owned(),
                is_async: true,
                params: vec![],
                body: Some(BlockStmt {
                    stmts: vec![await_call("myWorkflow", vec![ExprOrSpread {
                        spread: false,
                        expr: Expr::Object(vec![Prop {
                            key: "data".to_owned(),
                            value: Expr::Str("test".to_owned()),
                        }]),
                    }])],
                }),
            }))),
        ],
    };

    transform_client(&mut module);

    // The workflow import should be removed
    assert!(
        !has_import(&module, "./workflows/my-workflow"),
        "Workflow import should be replaced with descriptor"
    );

    // Non-workflow imports should remain
    assert!(has_import(&module, "some-package"), "Non-workflow imports should remain");

    // Should have a descriptor const
    assert!(has_var_decl_named(&module, "myWorkflow"), "Should have workflow descriptor");
}

#[test]
fn test_client_mode_preserves_non_relative_imports() {
    // import { something } from "external-package";
    // export function handler() { return something(); }
    let mut module = Module {
        body: vec![
            named_import("something", "external-package"),
            ModuleItem::ExportDecl(Decl::Fn(FnDecl {
                name: "handler".to_owned(),
                is_async: false,
                params: vec![],
                body: Some(BlockStmt {
                    stmts: vec![Stmt::Return(Some(Box::new(Expr::Call {
                        callee: Box::new(ident("something")),
                        args: vec![],
                    })))],
                }),
            })),
        ],
    };

    transform_client(&mut module);

    // Everything should be unchanged
    assert_eq!(module.body.len(), 2);
}

#[test]
fn test_client_mode_multiple_imports() {
    // import { workflowA } from "./workflows/a";
    // import { workflowB } from "./workflows/b";
    // async function run() { await workflowA(); await workflowB(); }
    let mut module = Module {
        body: vec![
            named_import("workflowA", "./workflows/a"),
            named_import("workflowB", "./workflows/b"),
            ModuleItem::Stmt(Stmt::Decl(Decl::Fn(FnDecl {
                name: "run".to_owned(),
                is_async: true,
                params: vec![],
                body: Some(BlockStmt {
                    stmts: vec![
                        await_call("workflowA", vec![]),
                        await_call("workflowB", vec![]),
                    ],
                }),
            }))),
        ],
    };

    transform_client(&mut module);

    // Both workflow imports should be replaced
    assert_eq!(count_imports(&module), 0, "All relative imports should be replaced");

    // Should have 2 descriptor consts + the function
    assert_eq!(count_var_decl_stmts(&module), 2, "Should have 2 workflow descriptors");
}

#[test]
fn test_client_mode_descriptors_before_other_code() {
    // Descriptors are inserted as a contiguous block before the first
    // surviving non-import item: surviving imports stay in front.
    let mut module = Module {
        body: vec![
            named_import("keep", "other-package"),
            named_import("wf", "./wf"),
            ModuleItem::Stmt(Stmt::Expr(Box::new(ident("rest")))),
        ],
    };
    transform_client(&mut module);

    assert_eq!(module.body.len(), 3);
    assert!(matches!(&module.body[0], ModuleItem::Import(d) if d.src == "other-package"));
    assert!(matches!(&module.body[1], ModuleItem::Stmt(Stmt::Decl(Decl::Var(_)))));
    assert!(matches!(&module.body[2], ModuleItem::Stmt(Stmt::Expr(_))));
}

#[test]
fn test_client_mode_parent_relative_import() {
    // `../shared/wf` counts as a relative path too.
    let mut module = Module {
        body: vec![
            named_import("wf", "../shared/wf"),
            ModuleItem::Stmt(Stmt::Expr(Box::new(ident("rest")))),
        ],
    };
    transform_client(&mut module);
    assert!(!has_import(&module, "../shared/wf"));
    assert!(has_var_decl_named(&module, "wf"));
}

#[test]
fn test_client_descriptor_shape() {
    // The descriptor is
    // const wf = { __workflow: true, name: "wf", functionName: process.env.WORKFLOW_WF };
    let mut module = Module {
        body: vec![
            named_import("wf", "./wf"),
            ModuleItem::Stmt(Stmt::Expr(Box::new(ident("rest")))),
        ],
    };
    transform_client(&mut module);

    let mut checked = false;
    for item in &module.body {
        if let ModuleItem::Stmt(Stmt::Decl(Decl::Var(v))) = item {
            let d = &v.decls[0];
            assert!(matches!(&d.name, Pat::Ident(n) if n == "wf"));
            if let Some(init) = &d.init {
                if let Expr::Object(props) = &**init {
                    assert_eq!(props.len(), 3);
                    assert_eq!(props[0].key, "__workflow");
                    assert!(matches!(props[0].value, Expr::Bool(true)));
                    assert_eq!(props[1].key, "name");
                    assert!(matches!(&props[1].value, Expr::Str(s) if s == "wf"));
                    assert_eq!(props[2].key, "functionName");
                    // process.env.WORKFLOW_WF: the local name is uppercased.
                    if let Expr::Member { obj, prop } = &props[2].value {
                        assert_eq!(prop, "WORKFLOW_WF");
                        assert!(matches!(&**obj, Expr::Member { prop, .. } if prop == "env"));
                    } else {
                        panic!("descriptor functionName should be an environment lookup");
                    }
                    checked = true;
                }
            }
        }
    }
    assert!(checked, "descriptor const should be present");
}
