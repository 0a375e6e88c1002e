//! Construction of the tree fragments the transformer inserts.
//!
//! Every builder is a pure constructor from plain values; the mirror of each
//! result is pinned down exactly by a spec function of the same shape. This
//! is the only place where new syntax is fabricated.

use vstd::prelude::*;
use vstd::string::StringExecFns;

use crate::ast::{
    clone_args, clone_expr, view_arg, view_args, view_arrow_body, view_block, view_decl,
    view_declarator, view_declarators, view_expr, view_item, view_prop, view_props, view_stmt,
    view_stmts, view_var_decl, ArrowBody, ArrowBodyV, BlockStmt, Decl, DeclV, Expr, ExprOrSpread,
    ExprOrSpreadV, ExprV, ImportDecl, ImportDeclV, ImportSpecifier, ImportSpecifierV, ModuleItem,
    ModuleItemV, Pat, PatV, Prop, PropV, Stmt, StmtV, VarDecl, VarDeclKind, VarDeclV, VarDeclarator,
    VarDeclaratorV,
};

verus! {

// ── The uppercased local name used in environment lookups ───────────

/// What `str::to_uppercase` returns for the given characters.
pub uninterp spec fn upper_of(s: Seq<char>) -> Seq<char>;

/// Relies on str::to_uppercase: the result is a function of the characters
/// alone (no locale is consulted).
#[verifier::external_body]
fn uppercase(s: &str) -> (r: String)
    ensures
        r@ == upper_of(s@),
{
    s.to_uppercase()
}

// ── Mirrors of the generated fragments ──────────────────────────────

/// `import { withDurableExecution } from "<pkg>"`
pub open spec fn sdk_import_item(pkg: Seq<char>) -> ModuleItemV {
    ModuleItemV::Import(
        ImportDeclV {
            specifiers: seq![
                ImportSpecifierV::Named { local: "withDurableExecution"@, imported: None },
            ],
            src: pkg,
        },
    )
}

/// `import { LambdaClient, InvokeCommand } from "@aws-sdk/client-lambda"`
pub open spec fn lambda_sdk_import_item() -> ModuleItemV {
    ModuleItemV::Import(
        ImportDeclV {
            specifiers: seq![
                ImportSpecifierV::Named { local: "LambdaClient"@, imported: None },
                ImportSpecifierV::Named { local: "InvokeCommand"@, imported: None },
            ],
            src: "@aws-sdk/client-lambda"@,
        },
    )
}

/// `const <name> = withDurableExecution(async (event, ctx) => { <body> })`,
/// wrapped in an export declaration when either flag is set.
pub open spec fn durable_wrapper_item(
    name: Seq<char>,
    body: Seq<StmtV>,
    is_exported: bool,
    is_default: bool,
) -> ModuleItemV {
    let arrow = ExprV::Arrow {
        params: seq!["event"@, "ctx"@],
        body: ArrowBodyV::Block(body),
        is_async: true,
    };
    let call = ExprV::Call {
        callee: Box::new(ExprV::Ident("withDurableExecution"@)),
        args: seq![ExprOrSpreadV { spread: false, expr: arrow }],
    };
    let var = VarDeclV {
        kind: VarDeclKind::Const,
        decls: seq![
            VarDeclaratorV { name: PatV::Ident(name), init: Some(Box::new(call)) },
        ],
    };
    if is_exported || is_default {
        ModuleItemV::ExportDecl(DeclV::Var(var))
    } else {
        ModuleItemV::Stmt(StmtV::Decl(DeclV::Var(var)))
    }
}

/// `ctx.step("<name>", async () => { <body> })`
pub open spec fn ctx_step_call_expr(name: Seq<char>, body: Seq<StmtV>) -> ExprV {
    ExprV::Call {
        callee: Box::new(
            ExprV::Member { obj: Box::new(ExprV::Ident("ctx"@)), prop: "step"@ },
        ),
        args: seq![
            ExprOrSpreadV { spread: false, expr: ExprV::Str(name) },
            ExprOrSpreadV {
                spread: false,
                expr: ExprV::Arrow {
                    params: Seq::empty(),
                    body: ArrowBodyV::Block(body),
                    is_async: true,
                },
            },
        ],
    }
}

/// `const client = new LambdaClient({});`
pub open spec fn invoke_client_decl_stmt() -> StmtV {
    StmtV::Decl(
        DeclV::Var(
            VarDeclV {
                kind: VarDeclKind::Const,
                decls: seq![
                    VarDeclaratorV {
                        name: PatV::Ident("client"@),
                        init: Some(
                            Box::new(
                                ExprV::New {
                                    callee: Box::new(ExprV::Ident("LambdaClient"@)),
                                    args: seq![
                                        ExprOrSpreadV {
                                            spread: false,
                                            expr: ExprV::Object(Seq::empty()),
                                        },
                                    ],
                                },
                            ),
                        ),
                    },
                ],
            },
        ),
    )
}

/// The two properties of the command object: the target identifier and the
/// JSON-serialized payload.
pub open spec fn invoke_command_args_props(fn_name: ExprV, payload: ExprV) -> Seq<PropV> {
    seq![
        PropV { key: "FunctionName"@, value: fn_name },
        PropV {
            key: "Payload"@,
            value: ExprV::Call {
                callee: Box::new(
                    ExprV::Member { obj: Box::new(ExprV::Ident("JSON"@)), prop: "stringify"@ },
                ),
                args: seq![ExprOrSpreadV { spread: false, expr: payload }],
            },
        },
    ]
}

/// `new InvokeCommand({ FunctionName: <fn_name>, Payload: JSON.stringify(<payload>) })`
pub open spec fn invoke_command_expr(fn_name: ExprV, payload: ExprV) -> ExprV {
    ExprV::New {
        callee: Box::new(ExprV::Ident("InvokeCommand"@)),
        args: seq![
            ExprOrSpreadV {
                spread: false,
                expr: ExprV::Object(invoke_command_args_props(fn_name, payload)),
            },
        ],
    }
}

/// `const response = await client.send(<command>);`
pub open spec fn invoke_response_decl_stmt(fn_name: ExprV, payload: ExprV) -> StmtV {
    StmtV::Decl(
        DeclV::Var(
            VarDeclV {
                kind: VarDeclKind::Const,
                decls: seq![
                    VarDeclaratorV {
                        name: PatV::Ident("response"@),
                        init: Some(
                            Box::new(
                                ExprV::Await(
                                    Box::new(
                                        ExprV::Call {
                                            callee: Box::new(
                                                ExprV::Member {
                                                    obj: Box::new(ExprV::Ident("client"@)),
                                                    prop: "send"@,
                                                },
                                            ),
                                            args: seq![
                                                ExprOrSpreadV {
                                                    spread: false,
                                                    expr: invoke_command_expr(fn_name, payload),
                                                },
                                            ],
                                        },
                                    ),
                                ),
                            ),
                        ),
                    },
                ],
            },
        ),
    )
}

/// `return JSON.parse(new TextDecoder().decode(response.Payload));`
pub open spec fn invoke_return_stmt() -> StmtV {
    StmtV::Return(
        Some(
            Box::new(
                ExprV::Call {
                    callee: Box::new(
                        ExprV::Member { obj: Box::new(ExprV::Ident("JSON"@)), prop: "parse"@ },
                    ),
                    args: seq![
                        ExprOrSpreadV {
                            spread: false,
                            expr: ExprV::Call {
                                callee: Box::new(
                                    ExprV::Member {
                                        obj: Box::new(
                                            ExprV::New {
                                                callee: Box::new(ExprV::Ident("TextDecoder"@)),
                                                args: Seq::empty(),
                                            },
                                        ),
                                        prop: "decode"@,
                                    },
                                ),
                                args: seq![
                                    ExprOrSpreadV {
                                        spread: false,
                                        expr: ExprV::Member {
                                            obj: Box::new(ExprV::Ident("response"@)),
                                            prop: "Payload"@,
                                        },
                                    },
                                ],
                            },
                        },
                    ],
                },
            ),
        ),
    )
}

/// The step block a remote invocation is rewritten to: it constructs a
/// client, sends the command, and returns the decoded response payload.
pub open spec fn invoke_step_expr(fn_name: ExprV, payload: ExprV) -> ExprV {
    ctx_step_call_expr(
        "invoke"@,
        seq![
            invoke_client_decl_stmt(),
            invoke_response_decl_stmt(fn_name, payload),
            invoke_return_stmt(),
        ],
    )
}

/// `ctx.wait(<duration>)`
pub open spec fn ctx_wait_call_expr(duration: ExprV) -> ExprV {
    ExprV::Call {
        callee: Box::new(
            ExprV::Member { obj: Box::new(ExprV::Ident("ctx"@)), prop: "wait"@ },
        ),
        args: seq![ExprOrSpreadV { spread: false, expr: duration }],
    }
}

/// `ctx.waitForCallback(<args>)`, the argument list forwarded verbatim.
pub open spec fn ctx_wait_for_callback_expr(args: Seq<ExprOrSpreadV>) -> ExprV {
    ExprV::Call {
        callee: Box::new(
            ExprV::Member { obj: Box::new(ExprV::Ident("ctx"@)), prop: "waitForCallback"@ },
        ),
        args: args,
    }
}

pub open spec fn str_elems(names: Seq<Seq<char>>) -> Seq<ExprOrSpreadV> {
    Seq::new(
        names.len(),
        |i: int|
            if 0 <= i < names.len() {
                ExprOrSpreadV { spread: false, expr: ExprV::Str(names[i]) }
            } else {
                arbitrary()
            },
    )
}

/// `export const __workflowMeta = { name: "<name>", steps: [<steps>] }`
pub open spec fn workflow_meta_item(name: Seq<char>, steps: Seq<Seq<char>>) -> ModuleItemV {
    ModuleItemV::ExportDecl(
        DeclV::Var(
            VarDeclV {
                kind: VarDeclKind::Const,
                decls: seq![
                    VarDeclaratorV {
                        name: PatV::Ident("__workflowMeta"@),
                        init: Some(
                            Box::new(
                                ExprV::Object(
                                    seq![
                                        PropV { key: "name"@, value: ExprV::Str(name) },
                                        PropV { key: "steps"@, value: ExprV::Array(str_elems(steps)) },
                                    ],
                                ),
                            ),
                        ),
                    },
                ],
            },
        ),
    )
}

/// `const <local> = { __workflow: true, name: "<local>", functionName:
/// process.env.<PREFIX><LOCAL uppercased> }`
pub open spec fn workflow_descriptor_item(local: Seq<char>, env_prefix: Seq<char>) -> ModuleItemV {
    ModuleItemV::Stmt(
        StmtV::Decl(
            DeclV::Var(
                VarDeclV {
                    kind: VarDeclKind::Const,
                    decls: seq![
                        VarDeclaratorV {
                            name: PatV::Ident(local),
                            init: Some(
                                Box::new(
                                    ExprV::Object(
                                        seq![
                                            PropV { key: "__workflow"@, value: ExprV::Bool(true) },
                                            PropV { key: "name"@, value: ExprV::Str(local) },
                                            PropV {
                                                key: "functionName"@,
                                                value: ExprV::Member {
                                                    obj: Box::new(
                                                        ExprV::Member {
                                                            obj: Box::new(ExprV::Ident("process"@)),
                                                            prop: "env"@,
                                                        },
                                                    ),
                                                    prop: env_prefix + upper_of(local),
                                                },
                                            },
                                        ],
                                    ),
                                ),
                            ),
                        },
                    ],
                },
            ),
        ),
    )
}

// ── Builders ────────────────────────────────────────────────────────
//
// Each small constructor states its result's mirror over the mirrors of its
// arguments, so larger builders compose by equalities alone.

fn ident(name: &str) -> (e: Expr)
    ensures
        view_expr(e) == ExprV::Ident(name@),
{
    Expr::Ident(name.to_owned())
}

fn str_lit(value: &str) -> (e: Expr)
    ensures
        view_expr(e) == ExprV::Str(value@),
{
    Expr::Str(value.to_owned())
}

fn member_of(obj: Expr, prop: &str) -> (e: Expr)
    ensures
        view_expr(e) == (ExprV::Member { obj: Box::new(view_expr(obj)), prop: prop@ }),
{
    Expr::Member { obj: Box::new(obj), prop: prop.to_owned() }
}

fn call_of(callee: Expr, args: Vec<ExprOrSpread>) -> (e: Expr)
    ensures
        view_expr(e) == (ExprV::Call {
            callee: Box::new(view_expr(callee)),
            args: view_args(args@),
        }),
{
    Expr::Call { callee: Box::new(callee), args }
}

fn new_of(callee: Expr, args: Vec<ExprOrSpread>) -> (e: Expr)
    ensures
        view_expr(e) == (ExprV::New {
            callee: Box::new(view_expr(callee)),
            args: view_args(args@),
        }),
{
    Expr::New { callee: Box::new(callee), args }
}

fn args0() -> (v: Vec<ExprOrSpread>)
    ensures
        view_args(v@) == Seq::<ExprOrSpreadV>::empty(),
{
    let v: Vec<ExprOrSpread> = Vec::new();
    assert(view_args(v@) =~= Seq::<ExprOrSpreadV>::empty());
    v
}

fn args1(e: Expr) -> (v: Vec<ExprOrSpread>)
    ensures
        view_args(v@) == seq![ExprOrSpreadV { spread: false, expr: view_expr(e) }],
{
    let ghost ev = view_expr(e);
    let mut v: Vec<ExprOrSpread> = Vec::new();
    v.push(ExprOrSpread { spread: false, expr: e });
    assert(view_arg(v@[0]) == (ExprOrSpreadV { spread: false, expr: ev }));
    assert(view_args(v@) =~= seq![ExprOrSpreadV { spread: false, expr: ev }]);
    v
}

fn args2(e1: Expr, e2: Expr) -> (v: Vec<ExprOrSpread>)
    ensures
        view_args(v@) == seq![
            ExprOrSpreadV { spread: false, expr: view_expr(e1) },
            ExprOrSpreadV { spread: false, expr: view_expr(e2) },
        ],
{
    let ghost ev1 = view_expr(e1);
    let ghost ev2 = view_expr(e2);
    let mut v: Vec<ExprOrSpread> = Vec::new();
    v.push(ExprOrSpread { spread: false, expr: e1 });
    v.push(ExprOrSpread { spread: false, expr: e2 });
    assert(view_arg(v@[0]) == (ExprOrSpreadV { spread: false, expr: ev1 }));
    assert(view_arg(v@[1]) == (ExprOrSpreadV { spread: false, expr: ev2 }));
    assert(view_args(v@) =~= seq![
        ExprOrSpreadV { spread: false, expr: ev1 },
        ExprOrSpreadV { spread: false, expr: ev2 },
    ]);
    v
}

fn async_block_arrow(params: Vec<String>, stmts: Vec<Stmt>) -> (e: Expr)
    ensures
        view_expr(e) == (ExprV::Arrow {
            params: params.deep_view(),
            body: ArrowBodyV::Block(view_stmts(stmts@)),
            is_async: true,
        }),
{
    let ghost sv = view_stmts(stmts@);
    let block = BlockStmt { stmts };
    assert(view_block(block) == sv);
    let body = ArrowBody::Block(block);
    assert(view_arrow_body(body) == ArrowBodyV::Block(sv));
    Expr::Arrow { params, body, is_async: true }
}

fn const_var_decl(name: &str, init: Expr) -> (v: VarDecl)
    ensures
        view_var_decl(v) == (VarDeclV {
            kind: VarDeclKind::Const,
            decls: seq![
                VarDeclaratorV { name: PatV::Ident(name@), init: Some(Box::new(view_expr(init))) },
            ],
        }),
{
    let ghost iv = view_expr(init);
    let declarator = VarDeclarator { name: Pat::Ident(name.to_owned()), init: Some(Box::new(init)) };
    assert(view_declarator(declarator) == (VarDeclaratorV {
        name: PatV::Ident(name@),
        init: Some(Box::new(iv)),
    }));
    let mut decls: Vec<VarDeclarator> = Vec::new();
    decls.push(declarator);
    assert(view_declarators(decls@) =~= seq![
        VarDeclaratorV { name: PatV::Ident(name@), init: Some(Box::new(iv)) },
    ]);
    let v = VarDecl { kind: VarDeclKind::Const, decls };
    assert(view_var_decl(v) =~~= (VarDeclV {
        kind: VarDeclKind::Const,
        decls: seq![VarDeclaratorV { name: PatV::Ident(name@), init: Some(Box::new(iv)) }],
    }));
    v
}

fn const_decl_stmt(name: &str, init: Expr) -> (s: Stmt)
    ensures
        view_stmt(s) == StmtV::Decl(
            DeclV::Var(
                VarDeclV {
                    kind: VarDeclKind::Const,
                    decls: seq![
                        VarDeclaratorV {
                            name: PatV::Ident(name@),
                            init: Some(Box::new(view_expr(init))),
                        },
                    ],
                },
            ),
        ),
{
    let ghost iv = view_expr(init);
    let var = const_var_decl(name, init);
    let ghost vv = view_var_decl(var);
    let d = Decl::Var(var);
    assert(view_decl(d) == DeclV::Var(vv));
    let s = Stmt::Decl(d);
    assert(view_stmt(s) == StmtV::Decl(DeclV::Var(vv)));
    s
}

/// Create: `import { withDurableExecution } from "<package_name>"`
pub fn create_sdk_import(package_name: &str) -> (r: ModuleItem)
    ensures
        view_item(r) == sdk_import_item(package_name@),
{
    let mut specifiers: Vec<ImportSpecifier> = Vec::new();
    specifiers.push(
        ImportSpecifier::Named { local: "withDurableExecution".to_owned(), imported: None },
    );
    let r = ModuleItem::Import(ImportDecl { specifiers, src: package_name.to_owned() });
    assert(view_item(r) =~~= sdk_import_item(package_name@));
    r
}

/// Create: `import { LambdaClient, InvokeCommand } from "@aws-sdk/client-lambda"`
pub fn create_lambda_sdk_import() -> (r: ModuleItem)
    ensures
        view_item(r) == lambda_sdk_import_item(),
{
    let mut specifiers: Vec<ImportSpecifier> = Vec::new();
    specifiers.push(ImportSpecifier::Named { local: "LambdaClient".to_owned(), imported: None });
    specifiers.push(ImportSpecifier::Named { local: "InvokeCommand".to_owned(), imported: None });
    let r = ModuleItem::Import(
        ImportDecl { specifiers, src: "@aws-sdk/client-lambda".to_owned() },
    );
    assert(view_item(r) =~~= lambda_sdk_import_item());
    r
}

/// Create: `const <fn_name> = withDurableExecution(async (event, ctx) => { <body> })`,
/// export-wrapped when either flag asks for it.
pub fn create_with_durable_execution_call(
    fn_name: &str,
    body_stmts: Vec<Stmt>,
    is_exported: bool,
    is_default: bool,
) -> (r: ModuleItem)
    ensures
        view_item(r) == durable_wrapper_item(
            fn_name@,
            view_stmts(body_stmts@),
            is_exported,
            is_default,
        ),
{
    let ghost body_view = view_stmts(body_stmts@);
    let mut params: Vec<String> = Vec::new();
    params.push("event".to_owned());
    params.push("ctx".to_owned());
    assert(params.deep_view() =~= seq!["event"@, "ctx"@]);
    let arrow = async_block_arrow(params, body_stmts);
    let call = call_of(ident("withDurableExecution"), args1(arrow));
    let var = const_var_decl(fn_name, call);
    let ghost vv = view_var_decl(var);
    let r = if is_exported || is_default {
        let d = Decl::Var(var);
        assert(view_decl(d) == DeclV::Var(vv));
        ModuleItem::ExportDecl(d)
    } else {
        let s = const_decl_stmt_from(var);
        ModuleItem::Stmt(s)
    };
    assert(view_item(r) =~~= durable_wrapper_item(fn_name@, body_view, is_exported, is_default));
    r
}

fn const_decl_stmt_from(var: VarDecl) -> (s: Stmt)
    ensures
        view_stmt(s) == StmtV::Decl(DeclV::Var(view_var_decl(var))),
{
    let ghost vv = view_var_decl(var);
    let d = Decl::Var(var);
    assert(view_decl(d) == DeclV::Var(vv));
    let s = Stmt::Decl(d);
    assert(view_stmt(s) == StmtV::Decl(DeclV::Var(vv)));
    s
}

/// Create: `ctx.step("<step_name>", async () => { <body> })`
pub fn create_ctx_step_call(step_name: &str, body_stmts: Vec<Stmt>) -> (r: Expr)
    ensures
        view_expr(r) == ctx_step_call_expr(step_name@, view_stmts(body_stmts@)),
{
    let ghost body_view = view_stmts(body_stmts@);
    let params: Vec<String> = Vec::new();
    assert(params.deep_view() =~= Seq::<Seq<char>>::empty());
    let arrow = async_block_arrow(params, body_stmts);
    let callee = member_of(ident("ctx"), "step");
    let r = call_of(callee, args2(str_lit(step_name), arrow));
    assert(view_expr(r) =~~= ctx_step_call_expr(step_name@, body_view));
    r
}

/// Create the `ctx.step("invoke", ...)` block of a remote invocation.
pub fn create_invoke_step(fn_name_expr: &Expr, payload_expr: &Expr) -> (r: Expr)
    ensures
        view_expr(r) == invoke_step_expr(view_expr(*fn_name_expr), view_expr(*payload_expr)),
{
    let ghost fn_name_view = view_expr(*fn_name_expr);
    let ghost payload_view = view_expr(*payload_expr);

    // const client = new LambdaClient({});
    let no_props: Vec<Prop> = Vec::new();
    assert(view_props(no_props@) =~= Seq::<PropV>::empty());
    let empty_object = Expr::Object(no_props);
    assert(view_expr(empty_object) == ExprV::Object(Seq::<PropV>::empty()));
    let lambda_client = new_of(ident("LambdaClient"), args1(empty_object));
    let client_decl = const_decl_stmt("client", lambda_client);
    assert(view_stmt(client_decl) =~~= invoke_client_decl_stmt());

    // JSON.stringify(<payload>)
    let json_stringify = call_of(
        member_of(ident("JSON"), "stringify"),
        args1(clone_expr(payload_expr)),
    );

    // new InvokeCommand({ FunctionName: ..., Payload: ... })
    let mut command_props: Vec<Prop> = Vec::new();
    command_props.push(Prop { key: "FunctionName".to_owned(), value: clone_expr(fn_name_expr) });
    command_props.push(Prop { key: "Payload".to_owned(), value: json_stringify });
    assert(view_prop(command_props@[0]) == (PropV { key: "FunctionName"@, value: fn_name_view }));
    assert(view_props(command_props@) =~~= invoke_command_args_props(fn_name_view, payload_view));
    let invoke_command = new_of(ident("InvokeCommand"), args1(Expr::Object(command_props)));
    assert(view_expr(invoke_command) =~~= invoke_command_expr(fn_name_view, payload_view));

    // const response = await client.send(<command>);
    let send_call = Expr::Await(
        Box::new(call_of(member_of(ident("client"), "send"), args1(invoke_command))),
    );
    let response_decl = const_decl_stmt("response", send_call);
    assert(view_stmt(response_decl) =~~= invoke_response_decl_stmt(fn_name_view, payload_view));

    // return JSON.parse(new TextDecoder().decode(response.Payload));
    let decoder = new_of(ident("TextDecoder"), args0());
    let decode_call = call_of(
        member_of(decoder, "decode"),
        args1(member_of(ident("response"), "Payload")),
    );
    let parse_call = call_of(member_of(ident("JSON"), "parse"), args1(decode_call));
    let return_stmt = Stmt::Return(Some(Box::new(parse_call)));
    assert(view_stmt(return_stmt) =~~= invoke_return_stmt());

    let mut body: Vec<Stmt> = Vec::new();
    body.push(client_decl);
    body.push(response_decl);
    body.push(return_stmt);
    assert(view_stmts(body@) =~= seq![
        invoke_client_decl_stmt(),
        invoke_response_decl_stmt(fn_name_view, payload_view),
        invoke_return_stmt(),
    ]);
    create_ctx_step_call("invoke", body)
}

/// Create: `ctx.wait(<duration>)`
pub fn create_ctx_wait_call(duration_expr: &Expr) -> (r: Expr)
    ensures
        view_expr(r) == ctx_wait_call_expr(view_expr(*duration_expr)),
{
    let callee = member_of(ident("ctx"), "wait");
    let r = call_of(callee, args1(clone_expr(duration_expr)));
    assert(view_expr(r) =~~= ctx_wait_call_expr(view_expr(*duration_expr)));
    r
}

/// Create: `ctx.waitForCallback(<args>)`, the arguments forwarded verbatim.
pub fn create_ctx_wait_for_callback_call(args: &Vec<ExprOrSpread>) -> (r: Expr)
    ensures
        view_expr(r) == ctx_wait_for_callback_expr(view_args(args@)),
{
    let callee = member_of(ident("ctx"), "waitForCallback");
    let forwarded = clone_args(args);
    let r = call_of(callee, forwarded);
    assert(view_expr(r) =~~= ctx_wait_for_callback_expr(view_args(args@)));
    r
}

/// Create: `export const __workflowMeta = { name: "<name>", steps: [...] }`
pub fn create_workflow_meta_export(workflow_name: &str, step_names: &Vec<String>) -> (r: ModuleItem)
    ensures
        view_item(r) == workflow_meta_item(workflow_name@, step_names.deep_view()),
{
    let mut elems: Vec<ExprOrSpread> = Vec::new();
    let mut i: usize = 0;
    while i < step_names.len()
        invariant
            i <= step_names.len(),
            elems.len() == i,
            forall|j: int|
                0 <= j < i ==> view_arg(elems@[j]) == (ExprOrSpreadV {
                    spread: false,
                    expr: ExprV::Str(step_names.deep_view()[j]),
                }),
        decreases step_names.len() - i,
    {
        let lit = str_lit(step_names[i].as_str());
        elems.push(ExprOrSpread { spread: false, expr: lit });
        i = i + 1;
    }
    assert(view_args(elems@) =~= str_elems(step_names.deep_view()));
    let steps_array = Expr::Array(elems);
    assert(view_expr(steps_array) == ExprV::Array(str_elems(step_names.deep_view())));

    let mut props: Vec<Prop> = Vec::new();
    props.push(Prop { key: "name".to_owned(), value: str_lit(workflow_name) });
    props.push(Prop { key: "steps".to_owned(), value: steps_array });
    assert(view_props(props@) =~= seq![
        PropV { key: "name"@, value: ExprV::Str(workflow_name@) },
        PropV { key: "steps"@, value: ExprV::Array(str_elems(step_names.deep_view())) },
    ]);
    let meta_obj = Expr::Object(props);
    let var = const_var_decl("__workflowMeta", meta_obj);
    let ghost vv = view_var_decl(var);
    let d = Decl::Var(var);
    assert(view_decl(d) == DeclV::Var(vv));
    let r = ModuleItem::ExportDecl(d);
    assert(view_item(r) =~~= workflow_meta_item(workflow_name@, step_names.deep_view()));
    r
}

/// Create: `const <local> = { __workflow: true, name: "<local>",
/// functionName: process.env.<PREFIX><LOCAL uppercased> }`
pub fn create_workflow_descriptor(local_name: &str, env_prefix: &str) -> (r: ModuleItem)
    ensures
        view_item(r) == workflow_descriptor_item(local_name@, env_prefix@),
{
    let upper = uppercase(local_name);
    let mut env_var_name = env_prefix.to_owned();
    env_var_name.append(upper.as_str());
    assert(env_var_name@ == env_prefix@ + upper_of(local_name@));

    let ghost env_name_view = env_prefix@ + upper_of(local_name@);
    let env_access = Expr::Member {
        obj: Box::new(member_of(ident("process"), "env")),
        prop: env_var_name,
    };
    assert(view_expr(env_access) == (ExprV::Member {
        obj: Box::new(
            ExprV::Member { obj: Box::new(ExprV::Ident("process"@)), prop: "env"@ },
        ),
        prop: env_name_view,
    }));

    let mut props: Vec<Prop> = Vec::new();
    props.push(Prop { key: "__workflow".to_owned(), value: Expr::Bool(true) });
    props.push(Prop { key: "name".to_owned(), value: str_lit(local_name) });
    props.push(Prop { key: "functionName".to_owned(), value: env_access });
    assert(view_props(props@) =~~= seq![
        PropV { key: "__workflow"@, value: ExprV::Bool(true) },
        PropV { key: "name"@, value: ExprV::Str(local_name@) },
        PropV {
            key: "functionName"@,
            value: ExprV::Member {
                obj: Box::new(
                    ExprV::Member { obj: Box::new(ExprV::Ident("process"@)), prop: "env"@ },
                ),
                prop: env_name_view,
            },
        },
    ]);

    let var = const_var_decl(local_name, Expr::Object(props));
    let s = const_decl_stmt_from(var);
    let r = ModuleItem::Stmt(s);
    assert(view_item(r) =~~= workflow_descriptor_item(local_name@, env_prefix@));
    r
}

} // verus!
