//! The mutating second pass.
//!
//! Driven by the fact sheet and the mode switch, it rewrites the module body
//! in place, delegating to the builders for every new fragment. In workflow
//! mode, workflow functions become durable-execution wrappers, step
//! declarations are deleted and inlined at their call sites, and reserved
//! helper calls become SDK primitives. In client mode, imports from relative
//! paths are replaced by workflow descriptor objects.

use vstd::prelude::*;

use crate::ast::{
    clone_item, clone_stmt, view_args, view_decl, view_declarator, view_declarators, view_expr,
    view_fn_decl, view_item, view_items, view_module, view_stmt, view_stmts, view_var_decl,
    Decl, DeclV, Expr, ExprOrSpread, ExprOrSpreadV, ExprV, Module, ModuleItem, ModuleItemV,
    ModuleV, Pat, PatV, Stmt, StmtV, VarDecl, VarDeclV, VarDeclarator, VarDeclaratorV,
};
use crate::codegen::{
    create_ctx_step_call, create_ctx_wait_call, create_ctx_wait_for_callback_call,
    create_invoke_step, create_lambda_sdk_import, create_sdk_import,
    create_with_durable_execution_call, create_workflow_descriptor, create_workflow_meta_export,
    ctx_step_call_expr, ctx_wait_call_expr, ctx_wait_for_callback_expr, durable_wrapper_item,
    invoke_step_expr, lambda_sdk_import_item, sdk_import_item, workflow_descriptor_item,
    workflow_meta_item,
};
use crate::collector::{
    extracted_fn_body, step_names_of, view_info, view_step_fns, CollectedInfo, CollectedInfoV,
    StepFnInfo, StepFnInfoV, WorkflowFnInfo, WorkflowFnInfoV, WorkflowImportInfoV,
};
use crate::config::{view_config, PluginConfig, PluginConfigV, TransformMode};
use crate::directive::{
    is_step_directive, is_use_step_directive, is_use_workflow_directive, is_workflow_directive,
};

verus! {

broadcast use vstd::std_specs::vec::group_vec_axioms;

// ── Lookups against the fact sheet ──────────────────────────────────

/// The name was recorded as a step function's.
pub open spec fn is_step_name(info: CollectedInfoV, name: Seq<char>) -> bool {
    exists|i: int| 0 <= i < info.step_fn_names.len() && #[trigger] info.step_fn_names[i] == name
}

/// The first collected workflow fact with this name.
pub open spec fn find_workflow(wfs: Seq<WorkflowFnInfoV>, name: Seq<char>) -> Option<
    WorkflowFnInfoV,
>
    decreases wfs.len(),
{
    if wfs.len() == 0 {
        None
    } else if wfs[0].name == name {
        Some(wfs[0])
    } else {
        find_workflow(wfs.drop_first(), name)
    }
}

/// The first collected step fact with this name.
pub open spec fn find_step(steps: Seq<StepFnInfoV>, name: Seq<char>) -> Option<StepFnInfoV>
    decreases steps.len(),
{
    if steps.len() == 0 {
        None
    } else if steps[0].name == name {
        Some(steps[0])
    } else {
        find_step(steps.drop_first(), name)
    }
}

// ── Body rewrite rules ──────────────────────────────────────────────

/// A step body is spliced with its own step directives removed; call-site
/// arguments are discarded and its statements are not rewritten further.
pub open spec fn strip_step_directives(ss: Seq<StmtV>) -> Seq<StmtV> {
    ss.filter(|s: StmtV| !is_step_directive(s))
}

pub open spec fn transform_expr_spec(e: ExprV, info: CollectedInfoV) -> ExprV
    decreases e,
{
    match e {
        ExprV::Call { callee, args } => {
            if *callee matches ExprV::Ident(n) && find_step(info.step_fns, n) is Some {
                let st = find_step(info.step_fns, callee->Ident_0)->Some_0;
                ctx_step_call_expr(st.name, strip_step_directives(st.body))
            } else if *callee matches ExprV::Ident(n) && n == "invoke"@ && args.len() >= 2 {
                invoke_step_expr(args[0].expr, args[1].expr)
            } else if *callee matches ExprV::Ident(n) && n == "sleep"@ && args.len() >= 1 {
                ctx_wait_call_expr(args[0].expr)
            } else if *callee matches ExprV::Ident(n) && n == "waitForCallback"@ {
                ctx_wait_for_callback_expr(args)
            } else {
                ExprV::Call { callee: callee, args: transform_args_spec(args, info) }
            }
        },
        ExprV::Await(arg) => ExprV::Await(Box::new(transform_expr_spec(*arg, info))),
        ExprV::Assign { target, value } => ExprV::Assign {
            target: target,
            value: Box::new(transform_expr_spec(*value, info)),
        },
        _ => e,
    }
}

pub open spec fn transform_args_spec(args: Seq<ExprOrSpreadV>, info: CollectedInfoV) -> Seq<
    ExprOrSpreadV,
>
    decreases args,
{
    Seq::new(
        args.len(),
        |i: int|
            if 0 <= i < args.len() {
                ExprOrSpreadV { spread: args[i].spread, expr: transform_expr_spec(args[i].expr, info) }
            } else {
                arbitrary()
            },
    )
}

pub open spec fn transform_declarator_spec(d: VarDeclaratorV, info: CollectedInfoV) -> VarDeclaratorV {
    VarDeclaratorV {
        name: d.name,
        init: match d.init {
            Some(e) => Some(Box::new(transform_expr_spec(*e, info))),
            None => None,
        },
    }
}

pub open spec fn transform_declarators_spec(ds: Seq<VarDeclaratorV>, info: CollectedInfoV) -> Seq<
    VarDeclaratorV,
> {
    Seq::new(
        ds.len(),
        |i: int| if 0 <= i < ds.len() { transform_declarator_spec(ds[i], info) } else { arbitrary() },
    )
}

/// Expression statements, variable declarations and returns are rewritten
/// inside; every other statement kind passes through untouched.
pub open spec fn transform_stmt_spec(s: StmtV, info: CollectedInfoV) -> StmtV {
    match s {
        StmtV::Expr(e) => StmtV::Expr(Box::new(transform_expr_spec(*e, info))),
        StmtV::Decl(DeclV::Var(v)) => StmtV::Decl(
            DeclV::Var(VarDeclV { kind: v.kind, decls: transform_declarators_spec(v.decls, info) }),
        ),
        StmtV::Return(arg) => StmtV::Return(
            match arg {
                Some(e) => Some(Box::new(transform_expr_spec(*e, info))),
                None => None,
            },
        ),
        _ => s,
    }
}

/// One workflow body: directive statements are stripped first, then each
/// statement is rewritten.
pub open spec fn transform_block_spec(ss: Seq<StmtV>, info: CollectedInfoV) -> Seq<StmtV>
    decreases ss.len(),
{
    if ss.len() == 0 {
        Seq::empty()
    } else {
        let rest = transform_block_spec(ss.drop_last(), info);
        if is_workflow_directive(ss.last()) || is_step_directive(ss.last()) {
            rest
        } else {
            rest.push(transform_stmt_spec(ss.last(), info))
        }
    }
}

// ── Workflow mode, per item ─────────────────────────────────────────

pub open spec fn declarator_is_step(d: VarDeclaratorV, info: CollectedInfoV) -> bool {
    d.name matches PatV::Ident(n) && is_step_name(info, n)
}

pub open spec fn decls_have_step_name(ds: Seq<VarDeclaratorV>, info: CollectedInfoV) -> bool {
    exists|i: int| 0 <= i < ds.len() && declarator_is_step(#[trigger] ds[i], info)
}

/// The wrapper a workflow declarator becomes; a declarator that is no
/// registered workflow, or whose initializer has no block body, becomes
/// nothing.
pub open spec fn declarator_wrappers(
    d: VarDeclaratorV,
    info: CollectedInfoV,
    exported: bool,
) -> Seq<ModuleItemV> {
    match d.name {
        PatV::Ident(name) => match find_workflow(info.workflow_fns, name) {
            Some(w) => match d.init {
                Some(init) => match extracted_fn_body(*init) {
                    Some((is_async, stmts)) => seq![
                        durable_wrapper_item(
                            name,
                            transform_block_spec(stmts, info),
                            exported,
                            if exported {
                                w.is_default_export
                            } else {
                                false
                            },
                        ),
                    ],
                    None => Seq::empty(),
                },
                None => Seq::empty(),
            },
            None => Seq::empty(),
        },
        _ => Seq::empty(),
    }
}

pub open spec fn decls_wrappers(
    ds: Seq<VarDeclaratorV>,
    info: CollectedInfoV,
    exported: bool,
) -> Seq<ModuleItemV>
    decreases ds.len(),
{
    if ds.len() == 0 {
        Seq::empty()
    } else {
        decls_wrappers(ds.drop_last(), info, exported) + declarator_wrappers(
            ds.last(),
            info,
            exported,
        )
    }
}

/// What one top-level item becomes in workflow mode.
pub open spec fn item_out(item: ModuleItemV, info: CollectedInfoV) -> Seq<ModuleItemV> {
    match item {
        ModuleItemV::Stmt(s) if is_workflow_directive(s) => Seq::empty(),
        ModuleItemV::Stmt(StmtV::Decl(DeclV::Fn(f))) => {
            if is_step_name(info, f.name) {
                Seq::empty()
            } else {
                match find_workflow(info.workflow_fns, f.name) {
                    Some(w) => match f.body {
                        Some(b) => seq![
                            durable_wrapper_item(f.name, transform_block_spec(b, info), false, false),
                        ],
                        None => Seq::empty(),
                    },
                    None => seq![item],
                }
            }
        },
        ModuleItemV::Stmt(StmtV::Decl(DeclV::Var(v))) => {
            if decls_have_step_name(v.decls, info) {
                Seq::empty()
            } else {
                let ws = decls_wrappers(v.decls, info, false);
                if ws.len() > 0 {
                    ws
                } else {
                    seq![item]
                }
            }
        },
        ModuleItemV::ExportDecl(DeclV::Fn(f)) => {
            if is_step_name(info, f.name) {
                Seq::empty()
            } else {
                match find_workflow(info.workflow_fns, f.name) {
                    Some(w) => match f.body {
                        Some(b) => seq![
                            durable_wrapper_item(
                                f.name,
                                transform_block_spec(b, info),
                                true,
                                w.is_default_export,
                            ),
                        ],
                        None => Seq::empty(),
                    },
                    None => seq![item],
                }
            }
        },
        ModuleItemV::ExportDecl(DeclV::Var(v)) => {
            if decls_have_step_name(v.decls, info) {
                Seq::empty()
            } else {
                let ws = decls_wrappers(v.decls, info, true);
                if ws.len() > 0 {
                    ws
                } else {
                    seq![item]
                }
            }
        },
        ModuleItemV::ExportDefaultFn(f) => {
            if is_step_name(info, f.name) {
                Seq::empty()
            } else {
                match find_workflow(info.workflow_fns, f.name) {
                    Some(w) => match f.body {
                        Some(b) => seq![
                            durable_wrapper_item(f.name, transform_block_spec(b, info), true, true),
                        ],
                        None => Seq::empty(),
                    },
                    None => seq![item],
                }
            }
        },
        _ => seq![item],
    }
}

pub open spec fn transform_items(items: Seq<ModuleItemV>, info: CollectedInfoV) -> Seq<ModuleItemV>
    decreases items.len(),
{
    if items.len() == 0 {
        Seq::empty()
    } else {
        transform_items(items.drop_last(), info) + item_out(items.last(), info)
    }
}

/// The imports prepended to a participating module.
pub open spec fn prefix_items(info: CollectedInfoV, cfg: PluginConfigV) -> Seq<ModuleItemV> {
    if info.has_invoke {
        seq![sdk_import_item(cfg.package_name), lambda_sdk_import_item()]
    } else {
        seq![sdk_import_item(cfg.package_name)]
    }
}

/// The `__workflowMeta` export appended to a module with workflow functions:
/// the first workflow's name, and every collected step name.
pub open spec fn meta_items(info: CollectedInfoV) -> Seq<ModuleItemV> {
    if info.workflow_fns.len() > 0 {
        seq![workflow_meta_item(info.workflow_fns[0].name, step_names_of(info.step_fns))]
    } else {
        Seq::empty()
    }
}

/// Workflow mode over a whole module. A module with no workflow function and
/// no module-level directive passes through unchanged.
pub open spec fn workflow_transform(m: ModuleV, info: CollectedInfoV, cfg: PluginConfigV) -> ModuleV {
    if info.workflow_fns.len() == 0 && !info.has_module_workflow_directive {
        m
    } else {
        ModuleV { body: prefix_items(info, cfg) + transform_items(m.body, info) + meta_items(info) }
    }
}

// ── Client mode ─────────────────────────────────────────────────────

pub open spec fn source_in_imports(imports: Seq<WorkflowImportInfoV>, src: Seq<char>) -> bool {
    exists|i: int| 0 <= i < imports.len() && (#[trigger] imports[i]).source == src
}

pub open spec fn item_is_replaced_import(item: ModuleItemV, info: CollectedInfoV) -> bool {
    item matches ModuleItemV::Import(d) && source_in_imports(info.workflow_imports, d.src)
}

pub open spec fn kept_items(items: Seq<ModuleItemV>, info: CollectedInfoV) -> Seq<ModuleItemV> {
    items.filter(|item: ModuleItemV| !item_is_replaced_import(item, info))
}

pub open spec fn specifier_local(s: crate::ast::ImportSpecifierV) -> Seq<char> {
    match s {
        crate::ast::ImportSpecifierV::Named { local, imported } => local,
        crate::ast::ImportSpecifierV::Default { local } => local,
        crate::ast::ImportSpecifierV::Namespace { local } => local,
    }
}

/// One descriptor per specifier of one replaced import.
pub open spec fn import_descriptors(d: crate::ast::ImportDeclV, cfg: PluginConfigV) -> Seq<
    ModuleItemV,
> {
    Seq::new(
        d.specifiers.len(),
        |i: int|
            if 0 <= i < d.specifiers.len() {
                workflow_descriptor_item(specifier_local(d.specifiers[i]), cfg.env_prefix)
            } else {
                arbitrary()
            },
    )
}

pub open spec fn item_descriptors(
    item: ModuleItemV,
    info: CollectedInfoV,
    cfg: PluginConfigV,
) -> Seq<ModuleItemV> {
    if item_is_replaced_import(item, info) {
        import_descriptors(item->Import_0, cfg)
    } else {
        Seq::empty()
    }
}

pub open spec fn client_descriptors(
    items: Seq<ModuleItemV>,
    info: CollectedInfoV,
    cfg: PluginConfigV,
) -> Seq<ModuleItemV>
    decreases items.len(),
{
    if items.len() == 0 {
        Seq::empty()
    } else {
        client_descriptors(items.drop_last(), info, cfg) + item_descriptors(items.last(), info, cfg)
    }
}

/// The position of the first surviving item that is not an import: the
/// generated descriptors are inserted there, after the surviving imports and
/// before everything else.
pub open spec fn first_non_import(items: Seq<ModuleItemV>) -> int
    decreases items.len(),
{
    if items.len() == 0 {
        0
    } else if items[0] matches ModuleItemV::Import(_) {
        1 + first_non_import(items.drop_first())
    } else {
        0
    }
}

/// Client mode over a whole module. A module with no relative import passes
/// through unchanged.
pub open spec fn client_transform(m: ModuleV, info: CollectedInfoV, cfg: PluginConfigV) -> ModuleV {
    if info.workflow_imports.len() == 0 {
        m
    } else {
        let kept = kept_items(m.body, info);
        let descs = client_descriptors(m.body, info, cfg);
        let p = first_non_import(kept);
        ModuleV { body: kept.take(p) + descs + kept.skip(p) }
    }
}

/// The whole pass: the mode switch picks the rewrite.
pub open spec fn transform_module(m: ModuleV, info: CollectedInfoV, cfg: PluginConfigV) -> ModuleV {
    match cfg.mode {
        TransformMode::Workflow => workflow_transform(m, info, cfg),
        TransformMode::Client => client_transform(m, info, cfg),
    }
}

// ── Pass 2, executable ──────────────────────────────────────────────

/// Pass 2: rewrites the tree, reading the frozen fact sheet.
#[derive(Debug)]
pub struct WorkflowTransformer {
    pub config: PluginConfig,
    pub info: CollectedInfo,
}

impl WorkflowTransformer {
    pub fn new(config: PluginConfig, info: CollectedInfo) -> (t: WorkflowTransformer)
        ensures
            view_config(t.config) == view_config(config),
            view_info(t.info) == view_info(info),
    {
        WorkflowTransformer { config, info }
    }

    fn is_step_fn_name(&self, name: &String) -> (r: bool)
        ensures
            r == is_step_name(view_info(self.info), name@),
    {
        let ghost namesv = view_info(self.info).step_fn_names;
        let mut i: usize = 0;
        while i < self.info.step_fn_names.len()
            invariant
                i <= self.info.step_fn_names.len(),
                namesv == view_info(self.info).step_fn_names,
                forall|j: int| 0 <= j < i ==> #[trigger] namesv[j] != name@,
            decreases self.info.step_fn_names.len() - i,
        {
            if self.info.step_fn_names[i] == *name {
                assert(namesv[i as int] == name@);
                return true;
            }
            i = i + 1;
        }
        assert(!is_step_name(view_info(self.info), name@));
        false
    }

    fn find_workflow_fn<'a>(&'a self, name: &String) -> (r: Option<&'a WorkflowFnInfo>)
        ensures
            match r {
                Some(w) => find_workflow(view_info(self.info).workflow_fns, name@) == Some(
                    w.deep_view(),
                ),
                None => find_workflow(view_info(self.info).workflow_fns, name@) is None,
            },
    {
        let ghost wfsv = self.info.workflow_fns.deep_view();
        let mut i: usize = 0;
        assert(wfsv.skip(0) =~= wfsv);
        while i < self.info.workflow_fns.len()
            invariant
                i <= self.info.workflow_fns.len(),
                wfsv == self.info.workflow_fns.deep_view(),
                find_workflow(wfsv, name@) == find_workflow(wfsv.skip(i as int), name@),
            decreases self.info.workflow_fns.len() - i,
        {
            proof {
                assert(wfsv.skip(i as int).len() > 0);
                assert(wfsv.skip(i as int)[0] == wfsv[i as int]);
                assert(wfsv.skip(i as int).drop_first() =~= wfsv.skip(i as int + 1));
            }
            if self.info.workflow_fns[i].name == *name {
                return Some(&self.info.workflow_fns[i]);
            }
            i = i + 1;
        }
        assert(wfsv.skip(self.info.workflow_fns.len() as int) =~= Seq::<WorkflowFnInfoV>::empty());
        None
    }

    fn find_step_fn<'a>(&'a self, name: &String) -> (r: Option<&'a StepFnInfo>)
        ensures
            match r {
                Some(st) => find_step(view_info(self.info).step_fns, name@) == Some(
                    crate::collector::view_step_fn(*st),
                ),
                None => find_step(view_info(self.info).step_fns, name@) is None,
            },
    {
        let ghost stepsv = view_step_fns(self.info.step_fns@);
        let mut i: usize = 0;
        assert(stepsv.skip(0) =~= stepsv);
        while i < self.info.step_fns.len()
            invariant
                i <= self.info.step_fns.len(),
                stepsv == view_step_fns(self.info.step_fns@),
                find_step(stepsv, name@) == find_step(stepsv.skip(i as int), name@),
            decreases self.info.step_fns.len() - i,
        {
            proof {
                assert(stepsv.skip(i as int).len() > 0);
                assert(stepsv.skip(i as int)[0] == stepsv[i as int]);
                assert(stepsv.skip(i as int).drop_first() =~= stepsv.skip(i as int + 1));
            }
            if self.info.step_fns[i].name == *name {
                return Some(&self.info.step_fns[i]);
            }
            i = i + 1;
        }
        assert(stepsv.skip(self.info.step_fns.len() as int) =~= Seq::<StepFnInfoV>::empty());
        None
    }
}

/// The step body minus its own step directives, cloned for one call site.
fn strip_step_directives_exec(ss: &Vec<Stmt>) -> (r: Vec<Stmt>)
    ensures
        view_stmts(r@) == strip_step_directives(view_stmts(ss@)),
{
    proof {
        reveal_with_fuel(Seq::<StmtV>::filter, 2);
    }
    let ghost ssv = view_stmts(ss@);
    let mut out: Vec<Stmt> = Vec::new();
    let mut i: usize = 0;
    assert(ssv.take(0) =~= Seq::<StmtV>::empty());
    assert(view_stmts(out@) =~= Seq::<StmtV>::empty());
    assert(strip_step_directives(ssv.take(0)) =~= Seq::<StmtV>::empty());
    while i < ss.len()
        invariant
            i <= ss.len(),
            ssv == view_stmts(ss@),
            view_stmts(out@) == strip_step_directives(ssv.take(i as int)),
        decreases ss.len() - i,
    {
        proof {
            reveal_with_fuel(Seq::<StmtV>::filter, 2);
            assert(ssv.take(i as int + 1).drop_last() =~= ssv.take(i as int));
            assert(ssv.take(i as int + 1).last() == ssv[i as int]);
        }
        if !is_use_step_directive(&ss[i]) {
            let ghost out0 = view_stmts(out@);
            out.push(clone_stmt(&ss[i]));
            assert(view_stmts(out@) =~= out0.push(ssv[i as int]));
        }
        i = i + 1;
    }
    assert(ssv.take(ss.len() as int) =~= ssv);
    out
}

impl WorkflowTransformer {
    #[verifier::rlimit(50)]
    fn transform_expr(&self, e: &Expr) -> (r: Expr)
        ensures
            view_expr(r) == transform_expr_spec(view_expr(*e), view_info(self.info)),
        decreases e,
    {
        proof {
            reveal_with_fuel(view_expr, 2);
        }
        let ghost infov = view_info(self.info);
        match e {
            Expr::Call { callee, args } => {
                match &**callee {
                    Expr::Ident(n) => {
                        match self.find_step_fn(n) {
                            Some(st) => {
                                let body = strip_step_directives_exec(&st.body.stmts);
                                let r = create_ctx_step_call(st.name.as_str(), body);
                                assert(view_expr(r) == transform_expr_spec(view_expr(*e), infov));
                                return r;
                            },
                            None => {},
                        }
                        if *n == "invoke".to_owned() && args.len() >= 2 {
                            let r = create_invoke_step(&args[0].expr, &args[1].expr);
                            assert(view_args(args@)[0].expr == view_expr(args@[0].expr));
                            assert(view_args(args@)[1].expr == view_expr(args@[1].expr));
                            assert(view_expr(r) == transform_expr_spec(view_expr(*e), infov));
                            return r;
                        }
                        if *n == "sleep".to_owned() && args.len() >= 1 {
                            let r = create_ctx_wait_call(&args[0].expr);
                            assert(view_args(args@)[0].expr == view_expr(args@[0].expr));
                            assert(view_expr(r) == transform_expr_spec(view_expr(*e), infov));
                            return r;
                        }
                        if *n == "waitForCallback".to_owned() {
                            let r = create_ctx_wait_for_callback_call(args);
                            assert(view_expr(r) == transform_expr_spec(view_expr(*e), infov));
                            return r;
                        }
                        let r = Expr::Call {
                            callee: Box::new(crate::ast::clone_expr(&**callee)),
                            args: self.transform_args(args),
                        };
                        assert(view_expr(r) =~~= transform_expr_spec(view_expr(*e), infov));
                        r
                    },
                    _ => {
                        let r = Expr::Call {
                            callee: Box::new(crate::ast::clone_expr(&**callee)),
                            args: self.transform_args(args),
                        };
                        assert(view_expr(r) =~~= transform_expr_spec(view_expr(*e), infov));
                        r
                    },
                }
            },
            Expr::Await(arg) => {
                let r = Expr::Await(Box::new(self.transform_expr(&**arg)));
                assert(view_expr(r) == transform_expr_spec(view_expr(*e), infov));
                r
            },
            Expr::Assign { target, value } => {
                let r = Expr::Assign {
                    target: Box::new(crate::ast::clone_expr(&**target)),
                    value: Box::new(self.transform_expr(&**value)),
                };
                assert(view_expr(r) == transform_expr_spec(view_expr(*e), infov));
                r
            },
            _ => {
                let r = crate::ast::clone_expr(e);
                assert(view_expr(r) == transform_expr_spec(view_expr(*e), infov));
                r
            },
        }
    }

    fn transform_args(&self, args: &Vec<ExprOrSpread>) -> (r: Vec<ExprOrSpread>)
        ensures
            view_args(r@) == transform_args_spec(view_args(args@), view_info(self.info)),
        decreases args,
    {
        let ghost argsv = view_args(args@);
        let mut out: Vec<ExprOrSpread> = Vec::new();
        let mut i: usize = 0;
        while i < args.len()
            invariant
                i <= args.len(),
                argsv == view_args(args@),
                out.len() == i,
                forall|j: int|
                    0 <= j < i ==> crate::ast::view_arg(#[trigger] out@[j]) == (ExprOrSpreadV {
                        spread: argsv[j].spread,
                        expr: transform_expr_spec(argsv[j].expr, view_info(self.info)),
                    }),
            decreases args.len() - i,
        {
            let te = self.transform_expr(&args[i].expr);
            out.push(ExprOrSpread { spread: args[i].spread, expr: te });
            i = i + 1;
        }
        assert(view_args(out@) =~= transform_args_spec(argsv, view_info(self.info)));
        out
    }

    fn transform_stmt(&self, s: &Stmt) -> (r: Stmt)
        ensures
            view_stmt(r) == transform_stmt_spec(view_stmt(*s), view_info(self.info)),
        decreases s,
    {
        let ghost infov = view_info(self.info);
        match s {
            Stmt::Expr(e) => {
                assert(view_stmt(*s) == StmtV::Expr(Box::new(view_expr(**e))));
                let te = self.transform_expr(&**e);
                let ghost tev = view_expr(te);
                let r = Stmt::Expr(Box::new(te));
                assert(view_stmt(r) == StmtV::Expr(Box::new(tev)));
                r
            },
            Stmt::Decl(d) => match d {
                Decl::Var(v) => {
                    assert(view_decl(*d) == DeclV::Var(view_var_decl(*v)));
                    assert(view_stmt(*s) == StmtV::Decl(DeclV::Var(view_var_decl(*v))));
                    assert(view_var_decl(*v) == (VarDeclV {
                        kind: v.kind,
                        decls: view_declarators(v.decls@),
                    }));
                    let decls = self.transform_declarators(&v.decls);
                    let ghost declsv = view_declarators(decls@);
                    let vd = VarDecl { kind: v.kind, decls };
                    assert(view_var_decl(vd) == (VarDeclV { kind: v.kind, decls: declsv }));
                    let d2 = Decl::Var(vd);
                    assert(view_decl(d2) == DeclV::Var(VarDeclV { kind: v.kind, decls: declsv }));
                    let r = Stmt::Decl(d2);
                    assert(view_stmt(r) == StmtV::Decl(
                        DeclV::Var(VarDeclV { kind: v.kind, decls: declsv }),
                    ));
                    r
                },
                Decl::Fn(f) => {
                    assert(view_decl(*d) == DeclV::Fn(view_fn_decl(*f)));
                    assert(view_stmt(*s) == StmtV::Decl(DeclV::Fn(view_fn_decl(*f))));
                    clone_stmt(s)
                },
            },
            Stmt::Return(arg) => match arg {
                Some(e) => {
                    assert(view_stmt(*s) == StmtV::Return(Some(Box::new(view_expr(**e)))));
                    let te = self.transform_expr(&**e);
                    let ghost tev = view_expr(te);
                    let r = Stmt::Return(Some(Box::new(te)));
                    assert(view_stmt(r) == StmtV::Return(Some(Box::new(tev))));
                    r
                },
                None => {
                    let r = Stmt::Return(None);
                    assert(view_stmt(r) == StmtV::Return(None));
                    assert(view_stmt(*s) == StmtV::Return(None));
                    r
                },
            },
            Stmt::If { cond, cons, alt } => {
                assert(view_stmt(*s) is If);
                clone_stmt(s)
            },
            Stmt::Block(b) => {
                assert(view_stmt(*s) is Block);
                clone_stmt(s)
            },
            Stmt::While { cond, body } => {
                assert(view_stmt(*s) is While);
                clone_stmt(s)
            },
            Stmt::Throw(e) => {
                assert(view_stmt(*s) is Throw);
                clone_stmt(s)
            },
            Stmt::Empty => {
                assert(view_stmt(*s) is Empty);
                clone_stmt(s)
            },
        }
    }

    fn transform_declarators(&self, ds: &Vec<VarDeclarator>) -> (r: Vec<VarDeclarator>)
        ensures
            view_declarators(r@) == transform_declarators_spec(
                view_declarators(ds@),
                view_info(self.info),
            ),
        decreases ds,
    {
        let ghost dsv = view_declarators(ds@);
        let mut out: Vec<VarDeclarator> = Vec::new();
        let mut i: usize = 0;
        while i < ds.len()
            invariant
                i <= ds.len(),
                dsv == view_declarators(ds@),
                out.len() == i,
                forall|j: int|
                    0 <= j < i ==> view_declarator(#[trigger] out@[j]) == transform_declarator_spec(
                        dsv[j],
                        view_info(self.info),
                    ),
            decreases ds.len() - i,
        {
            let init = match &ds[i].init {
                Some(e) => Some(Box::new(self.transform_expr(&**e))),
                None => None,
            };
            let d = VarDeclarator { name: crate::ast::clone_pat(&ds[i].name), init };
            assert(view_declarator(d) == transform_declarator_spec(dsv[i as int], view_info(self.info)));
            out.push(d);
            i = i + 1;
        }
        assert(view_declarators(out@) =~= transform_declarators_spec(dsv, view_info(self.info)));
        out
    }

    /// Strip the directives of one workflow body and rewrite each statement.
    fn transform_workflow_body(&self, stmts: &Vec<Stmt>) -> (r: Vec<Stmt>)
        ensures
            view_stmts(r@) == transform_block_spec(view_stmts(stmts@), view_info(self.info)),
    {
        let ghost ssv = view_stmts(stmts@);
        let mut out: Vec<Stmt> = Vec::new();
        let mut i: usize = 0;
        assert(view_stmts(out@) =~= Seq::<StmtV>::empty());
        assert(ssv.take(0) =~= Seq::<StmtV>::empty());
        while i < stmts.len()
            invariant
                i <= stmts.len(),
                ssv == view_stmts(stmts@),
                view_stmts(out@) == transform_block_spec(ssv.take(i as int), view_info(self.info)),
            decreases stmts.len() - i,
        {
            proof {
                assert(ssv.take(i as int + 1).drop_last() =~= ssv.take(i as int));
                assert(ssv.take(i as int + 1).last() == ssv[i as int]);
            }
            if !is_use_workflow_directive(&stmts[i]) && !is_use_step_directive(&stmts[i]) {
                let ghost out0 = view_stmts(out@);
                let t = self.transform_stmt(&stmts[i]);
                out.push(t);
                assert(view_stmts(out@) =~= out0.push(
                    transform_stmt_spec(ssv[i as int], view_info(self.info)),
                ));
            }
            i = i + 1;
        }
        assert(ssv.take(stmts.len() as int) =~= ssv);
        out
    }

    fn decls_have_step_name_exec(&self, ds: &Vec<VarDeclarator>) -> (r: bool)
        ensures
            r == decls_have_step_name(view_declarators(ds@), view_info(self.info)),
    {
        let ghost dsv = view_declarators(ds@);
        let mut i: usize = 0;
        while i < ds.len()
            invariant
                i <= ds.len(),
                dsv == view_declarators(ds@),
                forall|j: int| 0 <= j < i ==> !declarator_is_step(#[trigger] dsv[j], view_info(self.info)),
            decreases ds.len() - i,
        {
            match &ds[i].name {
                Pat::Ident(n) => {
                    if self.is_step_fn_name(n) {
                        assert(declarator_is_step(dsv[i as int], view_info(self.info)));
                        return true;
                    }
                },
                _ => {},
            }
            assert(!declarator_is_step(dsv[i as int], view_info(self.info)));
            i = i + 1;
        }
        false
    }

    /// Append the wrapper of each workflow declarator of one declaration.
    fn append_decls_wrappers(
        &self,
        out: &mut Vec<ModuleItem>,
        ds: &Vec<VarDeclarator>,
        exported: bool,
    ) -> (pushed: bool)
        ensures
            view_items(final(out)@) == view_items(old(out)@) + decls_wrappers(
                view_declarators(ds@),
                view_info(self.info),
                exported,
            ),
            pushed == (decls_wrappers(view_declarators(ds@), view_info(self.info), exported).len()
                > 0),
    {
        let ghost dsv = view_declarators(ds@);
        let ghost out0 = view_items(old(out)@);
        let mut pushed = false;
        let mut i: usize = 0;
        assert(dsv.take(0) =~= Seq::<VarDeclaratorV>::empty());
        while i < ds.len()
            invariant
                i <= ds.len(),
                dsv == view_declarators(ds@),
                view_items(out@) == out0 + decls_wrappers(dsv.take(i as int), view_info(self.info), exported),
                pushed == (decls_wrappers(dsv.take(i as int), view_info(self.info), exported).len() > 0),
            decreases ds.len() - i,
        {
            let ghost prev = decls_wrappers(dsv.take(i as int), view_info(self.info), exported);
            match (&ds[i].name, &ds[i].init) {
                (Pat::Ident(n), Some(init)) => {
                    match self.find_workflow_fn(n) {
                        Some(w) => {
                            match crate::collector::extract_fn_body(&**init) {
                                Some((is_async, b)) => {
                                    let stmts = self.transform_workflow_body(&b.stmts);
                                    let flag = if exported {
                                        w.is_default_export
                                    } else {
                                        false
                                    };
                                    let ghost out_pre = view_items(out@);
                                    let item = create_with_durable_execution_call(
                                        n.as_str(),
                                        stmts,
                                        exported,
                                        flag,
                                    );
                                    out.push(item);
                                    assert(view_items(out@) =~= out_pre.push(view_item(item)));
                                    pushed = true;
                                },
                                None => {},
                            }
                        },
                        None => {},
                    }
                },
                _ => {},
            }
            proof {
                assert(dsv.take(i as int + 1).drop_last() =~= dsv.take(i as int));
                assert(dsv.take(i as int + 1).last() == dsv[i as int]);
                assert(view_items(out@) =~= out0 + decls_wrappers(
                    dsv.take(i as int + 1),
                    view_info(self.info),
                    exported,
                ));
            }
            i = i + 1;
        }
        assert(dsv.take(ds.len() as int) =~= dsv);
        pushed
    }

    /// Append what one top-level item becomes in workflow mode.
    fn append_item_out(&self, out: &mut Vec<ModuleItem>, item: &ModuleItem)
        ensures
            view_items(final(out)@) == view_items(old(out)@) + item_out(
                view_item(*item),
                view_info(self.info),
            ),
    {
        proof {
            reveal_with_fuel(view_stmt, 2);
            reveal_with_fuel(view_decl, 2);
        }
        let ghost infov = view_info(self.info);
        let ghost itemv = view_item(*item);
        let ghost out0 = view_items(old(out)@);

        // A bare top-level workflow directive is dropped.
        match item {
            ModuleItem::Stmt(st) => {
                if is_use_workflow_directive(st) {
                    assert(view_items(out@) =~= out0 + item_out(itemv, infov));
                    return;
                }
            },
            _ => {},
        }

        match item {
            ModuleItem::Stmt(Stmt::Decl(Decl::Fn(f))) => {
                assert(itemv == ModuleItemV::Stmt(StmtV::Decl(DeclV::Fn(view_fn_decl(*f)))));
                if self.is_step_fn_name(&f.name) {
                    assert(view_items(out@) =~= out0 + item_out(itemv, infov));
                    return;
                }
                match self.find_workflow_fn(&f.name) {
                    Some(w) => {
                        match &f.body {
                            Some(b) => {
                                let stmts = self.transform_workflow_body(&b.stmts);
                                let ghost out_pre = view_items(out@);
                                let wrapped = create_with_durable_execution_call(
                                    f.name.as_str(),
                                    stmts,
                                    false,
                                    false,
                                );
                                out.push(wrapped);
                                assert(view_items(out@) =~= out_pre.push(view_item(wrapped)));
                                assert(view_items(out@) =~= out0 + item_out(itemv, infov));
                            },
                            None => {
                                assert(view_items(out@) =~= out0 + item_out(itemv, infov));
                            },
                        }
                    },
                    None => {
                        let kept = clone_item(item);
                        let ghost out_pre = view_items(out@);
                        out.push(kept);
                        assert(view_items(out@) =~= out_pre.push(view_item(kept)));
                        assert(view_items(out@) =~= out0 + item_out(itemv, infov));
                    },
                }
            },
            ModuleItem::Stmt(Stmt::Decl(Decl::Var(v))) => {
                assert(view_decl(Decl::Var(*v)) == DeclV::Var(view_var_decl(*v)));
                assert(itemv == ModuleItemV::Stmt(StmtV::Decl(DeclV::Var(view_var_decl(*v)))));
                if self.decls_have_step_name_exec(&v.decls) {
                    assert(view_items(out@) =~= out0 + item_out(itemv, infov));
                    return;
                }
                let pushed = self.append_decls_wrappers(out, &v.decls, false);
                if !pushed {
                    let kept = clone_item(item);
                    let ghost out_pre = view_items(out@);
                    out.push(kept);
                    assert(view_items(out@) =~= out_pre.push(view_item(kept)));
                }
                assert(view_items(out@) =~= out0 + item_out(itemv, infov));
            },
            ModuleItem::ExportDecl(Decl::Fn(f)) => {
                assert(view_decl(Decl::Fn(*f)) == DeclV::Fn(view_fn_decl(*f)));
                assert(itemv == ModuleItemV::ExportDecl(DeclV::Fn(view_fn_decl(*f))));
                if self.is_step_fn_name(&f.name) {
                    assert(view_items(out@) =~= out0 + item_out(itemv, infov));
                    return;
                }
                match self.find_workflow_fn(&f.name) {
                    Some(w) => {
                        match &f.body {
                            Some(b) => {
                                let stmts = self.transform_workflow_body(&b.stmts);
                                let ghost out_pre = view_items(out@);
                                let wrapped = create_with_durable_execution_call(
                                    f.name.as_str(),
                                    stmts,
                                    true,
                                    w.is_default_export,
                                );
                                out.push(wrapped);
                                assert(view_items(out@) =~= out_pre.push(view_item(wrapped)));
                                assert(view_items(out@) =~= out0 + item_out(itemv, infov));
                            },
                            None => {
                                assert(view_items(out@) =~= out0 + item_out(itemv, infov));
                            },
                        }
                    },
                    None => {
                        let kept = clone_item(item);
                        let ghost out_pre = view_items(out@);
                        out.push(kept);
                        assert(view_items(out@) =~= out_pre.push(view_item(kept)));
                        assert(view_items(out@) =~= out0 + item_out(itemv, infov));
                    },
                }
            },
            ModuleItem::ExportDecl(Decl::Var(v)) => {
                assert(view_decl(Decl::Var(*v)) == DeclV::Var(view_var_decl(*v)));
                assert(itemv == ModuleItemV::ExportDecl(DeclV::Var(view_var_decl(*v))));
                if self.decls_have_step_name_exec(&v.decls) {
                    assert(view_items(out@) =~= out0 + item_out(itemv, infov));
                    return;
                }
                let pushed = self.append_decls_wrappers(out, &v.decls, true);
                if !pushed {
                    let kept = clone_item(item);
                    let ghost out_pre = view_items(out@);
                    out.push(kept);
                    assert(view_items(out@) =~= out_pre.push(view_item(kept)));
                }
                assert(view_items(out@) =~= out0 + item_out(itemv, infov));
            },
            ModuleItem::ExportDefaultFn(f) => {
                assert(itemv == ModuleItemV::ExportDefaultFn(view_fn_decl(*f)));
                if self.is_step_fn_name(&f.name) {
                    assert(view_items(out@) =~= out0 + item_out(itemv, infov));
                    return;
                }
                match self.find_workflow_fn(&f.name) {
                    Some(w) => {
                        match &f.body {
                            Some(b) => {
                                let stmts = self.transform_workflow_body(&b.stmts);
                                let ghost out_pre = view_items(out@);
                                let wrapped = create_with_durable_execution_call(
                                    f.name.as_str(),
                                    stmts,
                                    true,
                                    true,
                                );
                                out.push(wrapped);
                                assert(view_items(out@) =~= out_pre.push(view_item(wrapped)));
                                assert(view_items(out@) =~= out0 + item_out(itemv, infov));
                            },
                            None => {
                                assert(view_items(out@) =~= out0 + item_out(itemv, infov));
                            },
                        }
                    },
                    None => {
                        let kept = clone_item(item);
                        let ghost out_pre = view_items(out@);
                        out.push(kept);
                        assert(view_items(out@) =~= out_pre.push(view_item(kept)));
                        assert(view_items(out@) =~= out0 + item_out(itemv, infov));
                    },
                }
            },
            _ => {
                let kept = clone_item(item);
                let ghost out_pre = view_items(out@);
                out.push(kept);
                assert(view_items(out@) =~= out_pre.push(view_item(kept)));
                assert(view_items(out@) =~= out0 + item_out(itemv, infov));
            },
        }
    }

    /// The names of every collected step function, in collection order.
    fn step_names_vec(&self) -> (r: Vec<String>)
        ensures
            r.deep_view() == step_names_of(view_step_fns(self.info.step_fns@)),
    {
        let ghost stepsv = view_step_fns(self.info.step_fns@);
        let mut r: Vec<String> = Vec::new();
        let mut i: usize = 0;
        while i < self.info.step_fns.len()
            invariant
                i <= self.info.step_fns.len(),
                stepsv == view_step_fns(self.info.step_fns@),
                r.len() == i,
                forall|j: int| 0 <= j < i ==> r.deep_view()[j] == (#[trigger] stepsv[j]).name,
            decreases self.info.step_fns.len() - i,
        {
            r.push(self.info.step_fns[i].name.clone());
            i = i + 1;
        }
        assert(r.deep_view() =~= step_names_of(stepsv));
        r
    }

    /// Workflow mode: rewrite the module body in place.
    pub fn transform_workflow_module(&self, module: &mut Module)
        ensures
            view_module(*final(module)) == workflow_transform(
                view_module(*old(module)),
                view_info(self.info),
                view_config(self.config),
            ),
    {
        let ghost infov = view_info(self.info);
        let ghost cfgv = view_config(self.config);
        let ghost itemsv = view_items(module.body@);

        if self.info.workflow_fns.len() == 0 && !self.info.has_module_workflow_directive {
            assert(infov.workflow_fns.len() == 0 && !infov.has_module_workflow_directive);
            return;
        }

        let mut new_items: Vec<ModuleItem> = Vec::new();
        let sdk = create_sdk_import(self.config.package_name.as_str());
        new_items.push(sdk);
        if self.info.has_invoke {
            let lambda = create_lambda_sdk_import();
            new_items.push(lambda);
        }
        assert(view_items(new_items@) =~= prefix_items(infov, cfgv));

        let ghost prefix = view_items(new_items@);
        let mut i: usize = 0;
        assert(itemsv.take(0) =~= Seq::<ModuleItemV>::empty());
        while i < module.body.len()
            invariant
                i <= module.body.len(),
                itemsv == view_items(module.body@),
                prefix == prefix_items(infov, cfgv),
                infov == view_info(self.info),
                view_items(new_items@) == prefix + transform_items(itemsv.take(i as int), infov),
            decreases module.body.len() - i,
        {
            self.append_item_out(&mut new_items, &module.body[i]);
            proof {
                assert(itemsv.take(i as int + 1).drop_last() =~= itemsv.take(i as int));
                assert(itemsv.take(i as int + 1).last() == itemsv[i as int]);
                assert(view_items(new_items@) =~= prefix + transform_items(
                    itemsv.take(i as int + 1),
                    infov,
                ));
            }
            i = i + 1;
        }
        assert(itemsv.take(module.body.len() as int) =~= itemsv);

        if self.info.workflow_fns.len() > 0 {
            let names = self.step_names_vec();
            let ghost out_pre = view_items(new_items@);
            let meta = create_workflow_meta_export(
                self.info.workflow_fns[0].name.as_str(),
                &names,
            );
            assert(self.info.workflow_fns[0].deep_view() == infov.workflow_fns[0]);
            new_items.push(meta);
            assert(view_items(new_items@) =~= out_pre.push(view_item(meta)));
            assert(view_items(new_items@) =~= prefix + transform_items(itemsv, infov) + meta_items(
                infov,
            ));
        } else {
            assert(view_items(new_items@) =~= prefix + transform_items(itemsv, infov) + meta_items(
                infov,
            ));
        }

        module.body = new_items;
        assert(view_module(*module) =~~= workflow_transform(
            ModuleV { body: itemsv },
            infov,
            cfgv,
        ));
    }
}

proof fn lemma_first_non_import_at(items: Seq<ModuleItemV>, p: int)
    requires
        0 <= p <= items.len(),
        forall|j: int| 0 <= j < p ==> (#[trigger] items[j]) matches ModuleItemV::Import(_),
        p < items.len() ==> !(items[p] matches ModuleItemV::Import(_)),
    ensures
        first_non_import(items) == p,
    decreases p,
{
    if p == 0 {
    } else {
        assert(items[0] matches ModuleItemV::Import(_));
        assert(forall|j: int|
            0 <= j < p - 1 ==> (#[trigger] items.drop_first()[j]) matches ModuleItemV::Import(_));
        lemma_first_non_import_at(items.drop_first(), p - 1);
    }
}

impl WorkflowTransformer {
    fn source_is_workflow(&self, src: &String) -> (r: bool)
        ensures
            r == source_in_imports(view_info(self.info).workflow_imports, src@),
    {
        let ghost importsv = view_info(self.info).workflow_imports;
        let mut i: usize = 0;
        while i < self.info.workflow_imports.len()
            invariant
                i <= self.info.workflow_imports.len(),
                importsv == view_info(self.info).workflow_imports,
                forall|j: int| 0 <= j < i ==> (#[trigger] importsv[j]).source != src@,
            decreases self.info.workflow_imports.len() - i,
        {
            if self.info.workflow_imports[i].source == *src {
                assert(importsv[i as int].source == src@);
                return true;
            }
            i = i + 1;
        }
        false
    }

    /// Append one descriptor per specifier of one replaced import.
    fn append_import_descriptors(&self, out: &mut Vec<ModuleItem>, d: &crate::ast::ImportDecl)
        ensures
            view_items(final(out)@) == view_items(old(out)@) + import_descriptors(
                crate::ast::view_import(*d),
                view_config(self.config),
            ),
    {
        let ghost cfgv = view_config(self.config);
        let ghost dv = crate::ast::view_import(*d);
        let ghost out0 = view_items(old(out)@);
        let ghost n0 = old(out).len();
        let mut i: usize = 0;
        while i < d.specifiers.len()
            invariant
                i <= d.specifiers.len(),
                dv == crate::ast::view_import(*d),
                cfgv == view_config(self.config),
                out.len() == n0 + i,
                forall|j: int| 0 <= j < n0 ==> view_items(out@)[j] == out0[j],
                forall|j: int|
                    0 <= j < i ==> view_items(out@)[n0 + j] == workflow_descriptor_item(
                        specifier_local(#[trigger] dv.specifiers[j]),
                        cfgv.env_prefix,
                    ),
            decreases d.specifiers.len() - i,
        {
            let local = match &d.specifiers[i] {
                crate::ast::ImportSpecifier::Named { local, imported } => local,
                crate::ast::ImportSpecifier::Default { local } => local,
                crate::ast::ImportSpecifier::Namespace { local } => local,
            };
            assert(local@ == specifier_local(dv.specifiers[i as int]));
            let desc = create_workflow_descriptor(
                local.as_str(),
                self.config.env_prefix.as_str(),
            );
            out.push(desc);
            i = i + 1;
        }
        assert(view_items(out@) =~= out0 + import_descriptors(dv, cfgv));
    }

    /// Client mode: replace imports from relative paths by descriptors.
    pub fn transform_client_module(&self, module: &mut Module)
        ensures
            view_module(*final(module)) == client_transform(
                view_module(*old(module)),
                view_info(self.info),
                view_config(self.config),
            ),
    {
        let ghost infov = view_info(self.info);
        let ghost cfgv = view_config(self.config);
        let ghost itemsv = view_items(module.body@);

        if self.info.workflow_imports.len() == 0 {
            assert(infov.workflow_imports.len() == 0);
            return;
        }

        let mut kept: Vec<ModuleItem> = Vec::new();
        let mut descriptors_to_add: Vec<ModuleItem> = Vec::new();
        assert(view_items(kept@) =~= Seq::<ModuleItemV>::empty());
        assert(view_items(descriptors_to_add@) =~= Seq::<ModuleItemV>::empty());
        assert(itemsv.take(0) =~= Seq::<ModuleItemV>::empty());
        proof {
            reveal_with_fuel(Seq::<ModuleItemV>::filter, 2);
            assert(kept_items(itemsv.take(0), infov) =~= Seq::<ModuleItemV>::empty());
        }

        let mut i: usize = 0;
        while i < module.body.len()
            invariant
                i <= module.body.len(),
                itemsv == view_items(module.body@),
                infov == view_info(self.info),
                cfgv == view_config(self.config),
                view_items(kept@) == kept_items(itemsv.take(i as int), infov),
                view_items(descriptors_to_add@) == client_descriptors(
                    itemsv.take(i as int),
                    infov,
                    cfgv,
                ),
            decreases module.body.len() - i,
        {
            proof {
                reveal_with_fuel(Seq::<ModuleItemV>::filter, 2);
                assert(itemsv.take(i as int + 1).drop_last() =~= itemsv.take(i as int));
                assert(itemsv.take(i as int + 1).last() == itemsv[i as int]);
            }
            let replaced = match &module.body[i] {
                ModuleItem::Import(d) => self.source_is_workflow(&d.src),
                _ => false,
            };
            if replaced {
                match &module.body[i] {
                    ModuleItem::Import(d) => {
                        assert(itemsv[i as int] == ModuleItemV::Import(crate::ast::view_import(*d)));
                        assert(item_is_replaced_import(itemsv[i as int], infov));
                        self.append_import_descriptors(&mut descriptors_to_add, d);
                    },
                    _ => {
                        assert(false);
                    },
                }
            } else {
                assert(!item_is_replaced_import(itemsv[i as int], infov));
                let ghost kept0 = view_items(kept@);
                let item = clone_item(&module.body[i]);
                kept.push(item);
                assert(view_items(kept@) =~= kept0.push(itemsv[i as int]));
                assert(view_items(descriptors_to_add@) =~= client_descriptors(
                    itemsv.take(i as int + 1),
                    infov,
                    cfgv,
                ));
            }
            i = i + 1;
        }
        assert(itemsv.take(module.body.len() as int) =~= itemsv);
        let ghost keptv = view_items(kept@);
        let ghost descsv = view_items(descriptors_to_add@);

        // The descriptors go right before the first surviving non-import item.
        let mut p: usize = 0;
        while p < kept.len() && matches!(&kept[p], ModuleItem::Import(_))
            invariant
                p <= kept.len(),
                keptv == view_items(kept@),
                forall|j: int| 0 <= j < p ==> (#[trigger] keptv[j]) matches ModuleItemV::Import(_),
            decreases kept.len() - p,
        {
            assert(keptv[p as int] matches ModuleItemV::Import(_));
            p = p + 1;
        }
        proof {
            if p < kept.len() {
                assert(!(keptv[p as int] matches ModuleItemV::Import(_)));
            }
            lemma_first_non_import_at(keptv, p as int);
        }

        let mut final_items: Vec<ModuleItem> = Vec::new();
        let mut j: usize = 0;
        while j < p
            invariant
                j <= p,
                p <= kept.len(),
                keptv == view_items(kept@),
                final_items.len() == j,
                forall|k: int| 0 <= k < j ==> view_items(final_items@)[k] == keptv[k],
            decreases p - j,
        {
            let item = clone_item(&kept[j]);
            final_items.push(item);
            j = j + 1;
        }
        let mut j2: usize = 0;
        while j2 < descriptors_to_add.len()
            invariant
                j2 <= descriptors_to_add.len(),
                p <= kept.len(),
                keptv == view_items(kept@),
                descsv == view_items(descriptors_to_add@),
                final_items.len() == p + j2,
                forall|k: int| 0 <= k < p ==> view_items(final_items@)[k] == keptv[k],
                forall|k: int| 0 <= k < j2 ==> view_items(final_items@)[p + k] == descsv[k],
            decreases descriptors_to_add.len() - j2,
        {
            let item = clone_item(&descriptors_to_add[j2]);
            final_items.push(item);
            j2 = j2 + 1;
        }
        let nd = descriptors_to_add.len();
        let mut j3: usize = p;
        while j3 < kept.len()
            invariant
                p <= j3 <= kept.len(),
                keptv == view_items(kept@),
                descsv == view_items(descriptors_to_add@),
                nd == descriptors_to_add.len(),
                final_items.len() == nd + j3,
                forall|k: int| 0 <= k < p ==> view_items(final_items@)[k] == keptv[k],
                forall|k: int| 0 <= k < nd ==> view_items(final_items@)[p + k] == descsv[k],
                forall|k: int| p <= k < j3 ==> view_items(final_items@)[nd + k] == keptv[k],
            decreases kept.len() - j3,
        {
            let item = clone_item(&kept[j3]);
            final_items.push(item);
            j3 = j3 + 1;
        }
        assert(view_items(final_items@) =~= keptv.take(p as int) + descsv + keptv.skip(p as int));

        module.body = final_items;
    }

    /// Run the pass on one module, picking the rewrite from the mode switch.
    pub fn visit_mut_module(&mut self, module: &mut Module)
        ensures
            view_module(*final(module)) == transform_module(
                view_module(*old(module)),
                view_info(old(self).info),
                view_config(old(self).config),
            ),
            *final(self) == *old(self),
    {
        match self.config.mode {
            TransformMode::Workflow => self.transform_workflow_module(module),
            TransformMode::Client => self.transform_client_module(module),
        }
    }
}

} // verus!
