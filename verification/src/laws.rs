//! Statements that hold of the pass as a whole, each proved from the
//! contracts and definitions of the collector, the builders and the
//! transformer.

use vstd::prelude::*;

use crate::ast::{ModuleItemV, ModuleV, StmtV};
use crate::codegen::{
    ctx_step_call_expr, durable_wrapper_item, lambda_sdk_import_item, sdk_import_item,
    workflow_meta_item,
};
use crate::collector::{collect_module, has_module_directive, CollectedInfoV, StepFnInfoV};
use crate::config::PluginConfigV;
use crate::directive::is_workflow_directive;
use crate::query::{has_import_from, item_is_import_from};
use crate::transform::{
    client_transform, find_step, is_step_name, item_out, meta_items, prefix_items,
    strip_step_directives, transform_expr_spec, transform_items, workflow_transform,
};

verus! {

broadcast use vstd::std_specs::vec::group_vec_axioms;

// ── Pass-through laws ───────────────────────────────────────────────

/// A module in which collection found no workflow function and no
/// module-level workflow directive passes workflow mode unchanged.
pub proof fn lemma_workflow_passthrough(m: ModuleV, cfg: PluginConfigV)
    requires
        collect_module(m).workflow_fns.len() == 0,
        !collect_module(m).has_module_workflow_directive,
    ensures
        workflow_transform(m, collect_module(m), cfg) == m,
{
}

/// A module in which collection found no relative import passes client mode
/// unchanged.
pub proof fn lemma_client_passthrough(m: ModuleV, cfg: PluginConfigV)
    requires
        collect_module(m).workflow_imports.len() == 0,
    ensures
        client_transform(m, collect_module(m), cfg) == m,
{
}

// ── The generated imports ───────────────────────────────────────────

/// A participating module that mentions `invoke` gets both the
/// durable-execution import and the remote-invocation import, in front.
pub proof fn lemma_invoke_brings_both_imports(m: ModuleV, info: CollectedInfoV, cfg: PluginConfigV)
    requires
        info.workflow_fns.len() > 0 || info.has_module_workflow_directive,
        info.has_invoke,
    ensures
        workflow_transform(m, info, cfg).body[0] == sdk_import_item(cfg.package_name),
        workflow_transform(m, info, cfg).body[1] == lambda_sdk_import_item(),
        has_import_from(workflow_transform(m, info, cfg).body, cfg.package_name),
        has_import_from(workflow_transform(m, info, cfg).body, "@aws-sdk/client-lambda"@),
{
    let out = workflow_transform(m, info, cfg);
    assert(out.body[0] == sdk_import_item(cfg.package_name));
    assert(out.body[1] == lambda_sdk_import_item());
    assert(item_is_import_from(out.body[0], cfg.package_name));
    assert(item_is_import_from(out.body[1], "@aws-sdk/client-lambda"@));
}

/// A participating module always gets the durable-execution import, in
/// front, whether or not `invoke` appears.
pub proof fn lemma_sdk_import_always(m: ModuleV, info: CollectedInfoV, cfg: PluginConfigV)
    requires
        info.workflow_fns.len() > 0 || info.has_module_workflow_directive,
    ensures
        workflow_transform(m, info, cfg).body[0] == sdk_import_item(cfg.package_name),
        has_import_from(workflow_transform(m, info, cfg).body, cfg.package_name),
{
    let out = workflow_transform(m, info, cfg);
    assert(out.body[0] == sdk_import_item(cfg.package_name));
    assert(item_is_import_from(out.body[0], cfg.package_name));
}

// ── Step inlining ───────────────────────────────────────────────────

/// A call whose callee is a registered step name is replaced, arguments
/// discarded, by a `ctx.step` call carrying the step's own body minus its
/// directive.
pub proof fn lemma_step_call_inlined(
    callee: Box<crate::ast::ExprV>,
    args: Seq<crate::ast::ExprOrSpreadV>,
    info: CollectedInfoV,
    st: StepFnInfoV,
)
    requires
        *callee matches crate::ast::ExprV::Ident(n) && find_step(info.step_fns, n) == Some(st),
    ensures
        transform_expr_spec(crate::ast::ExprV::Call { callee, args }, info) == ctx_step_call_expr(
            st.name,
            strip_step_directives(st.body),
        ),
{
}

/// A top-level declaration of a registered step name disappears entirely
/// from the output item sequence.
pub proof fn lemma_step_decl_removed(f: crate::ast::FnDeclV, info: CollectedInfoV)
    requires
        is_step_name(info, f.name),
    ensures
        item_out(ModuleItemV::Stmt(StmtV::Decl(crate::ast::DeclV::Fn(f))), info) == Seq::<
            ModuleItemV,
        >::empty(),
        item_out(ModuleItemV::ExportDecl(crate::ast::DeclV::Fn(f)), info) == Seq::<
            ModuleItemV,
        >::empty(),
{
    let item = ModuleItemV::Stmt(StmtV::Decl(crate::ast::DeclV::Fn(f)));
    assert(!is_workflow_directive(StmtV::Decl(crate::ast::DeclV::Fn(f))));
}

// ── Export flags ────────────────────────────────────────────────────

/// The wrapper is export-decorated exactly when one of the two flags asks
/// for it; a non-exported workflow becomes a plain `const` statement.
pub proof fn lemma_wrapper_export_flags(
    name: Seq<char>,
    body: Seq<StmtV>,
    is_exported: bool,
    is_default: bool,
)
    ensures
        (is_exported || is_default) <==> durable_wrapper_item(
            name,
            body,
            is_exported,
            is_default,
        ) matches ModuleItemV::ExportDecl(_),
        !(is_exported || is_default) <==> durable_wrapper_item(
            name,
            body,
            is_exported,
            is_default,
        ) matches ModuleItemV::Stmt(_),
{
}

/// Export flags round-trip through collection and rewriting: a default-export
/// workflow function declaration becomes an export-decorated wrapper, and a
/// plain one becomes a plain `const` declaration statement.
pub proof fn lemma_export_flags_round_trip(f: crate::ast::FnDeclV, info: CollectedInfoV)
    requires
        !is_step_name(info, f.name),
        crate::transform::find_workflow(info.workflow_fns, f.name) is Some,
        f.body is Some,
    ensures
        item_out(ModuleItemV::ExportDefaultFn(f), info) == seq![
            durable_wrapper_item(
                f.name,
                crate::transform::transform_block_spec(f.body->Some_0, info),
                true,
                true,
            ),
        ],
        item_out(ModuleItemV::ExportDefaultFn(f), info)[0] matches ModuleItemV::ExportDecl(_),
        item_out(ModuleItemV::Stmt(StmtV::Decl(crate::ast::DeclV::Fn(f))), info) == seq![
            durable_wrapper_item(
                f.name,
                crate::transform::transform_block_spec(f.body->Some_0, info),
                false,
                false,
            ),
        ],
        item_out(ModuleItemV::Stmt(StmtV::Decl(crate::ast::DeclV::Fn(f))), info)[0]
            matches ModuleItemV::Stmt(_),
{
    assert(!is_workflow_directive(StmtV::Decl(crate::ast::DeclV::Fn(f))));
}

/// Collection stamps the flags from the item's position: a default-export
/// function is recorded as an exported default export, and a plain function
/// declaration as neither.
pub proof fn lemma_collect_export_flags(f: crate::ast::FnDeclV)
    requires
        f.body is Some,
        crate::directive::stmts_have_directive(f.body->Some_0, "use workflow"@),
    ensures
        crate::collector::item_workflow_fns(ModuleItemV::ExportDefaultFn(f)) == seq![
            crate::collector::WorkflowFnInfoV {
                name: f.name,
                is_exported: true,
                is_default_export: true,
                is_async: f.is_async,
            },
        ],
        crate::collector::item_workflow_fns(
            ModuleItemV::Stmt(StmtV::Decl(crate::ast::DeclV::Fn(f))),
        ) == seq![
            crate::collector::WorkflowFnInfoV {
                name: f.name,
                is_exported: false,
                is_default_export: false,
                is_async: f.is_async,
            },
        ],
{
}

// ── Supporting lemmas for the idempotence law ───────────────────────

proof fn lemma_cwf_concat(a: Seq<ModuleItemV>, b: Seq<ModuleItemV>)
    ensures
        crate::collector::collect_workflow_fns(a + b) == crate::collector::collect_workflow_fns(a)
            + crate::collector::collect_workflow_fns(b),
    decreases b.len(),
{
    if b.len() == 0 {
        assert(a + b =~= a);
        assert(crate::collector::collect_workflow_fns(a) + crate::collector::collect_workflow_fns(b)
            =~= crate::collector::collect_workflow_fns(a));
    } else {
        lemma_cwf_concat(a, b.drop_last());
        assert((a + b).drop_last() =~= a + b.drop_last());
        assert((a + b).last() == b.last());
        assert(crate::collector::collect_workflow_fns(a) + crate::collector::collect_workflow_fns(
            b.drop_last(),
        ) + crate::collector::item_workflow_fns(b.last()) =~= crate::collector::collect_workflow_fns(a)
            + crate::collector::collect_workflow_fns(b));
    }
}

proof fn lemma_hmd_concat(a: Seq<ModuleItemV>, b: Seq<ModuleItemV>)
    ensures
        has_module_directive(a + b) <==> (has_module_directive(a) || has_module_directive(b)),
{
    if has_module_directive(a + b) {
        let i = choose|i: int|
            0 <= i < (a + b).len() && crate::collector::item_is_module_directive((a + b)[i]);
        if i < a.len() {
            assert((a + b)[i] == a[i]);
        } else {
            assert((a + b)[i] == b[i - a.len()]);
        }
    }
    if has_module_directive(a) {
        let i = choose|i: int| 0 <= i < a.len() && crate::collector::item_is_module_directive(a[i]);
        assert((a + b)[i] == a[i]);
    }
    if has_module_directive(b) {
        let i = choose|i: int| 0 <= i < b.len() && crate::collector::item_is_module_directive(b[i]);
        assert((a + b)[a.len() + i] == b[i]);
    }
}

/// A generated wrapper contributes no workflow fact and is no directive.
proof fn lemma_wrapper_is_clean(name: Seq<char>, body: Seq<StmtV>, exported: bool, dflt: bool)
    ensures
        crate::collector::item_workflow_fns(durable_wrapper_item(name, body, exported, dflt))
            =~= Seq::<crate::collector::WorkflowFnInfoV>::empty(),
        !crate::collector::item_is_module_directive(durable_wrapper_item(name, body, exported, dflt)),
{
    let w = durable_wrapper_item(name, body, exported, dflt);
    reveal_with_fuel(crate::collector::decls_workflow_fns, 2);
    if exported || dflt {
        assert(crate::collector::item_workflow_fns(w) =~= Seq::<
            crate::collector::WorkflowFnInfoV,
        >::empty());
    } else {
        assert(crate::collector::item_workflow_fns(w) =~= Seq::<
            crate::collector::WorkflowFnInfoV,
        >::empty());
    }
}

proof fn lemma_decls_wrappers_clean(
    ds: Seq<crate::ast::VarDeclaratorV>,
    info: CollectedInfoV,
    exported: bool,
)
    ensures
        crate::collector::collect_workflow_fns(crate::transform::decls_wrappers(ds, info, exported))
            =~= Seq::<crate::collector::WorkflowFnInfoV>::empty(),
        !has_module_directive(crate::transform::decls_wrappers(ds, info, exported)),
    decreases ds.len(),
{
    reveal_with_fuel(crate::collector::collect_workflow_fns, 2);
    if ds.len() == 0 {
    } else {
        lemma_decls_wrappers_clean(ds.drop_last(), info, exported);
        let one = crate::transform::declarator_wrappers(ds.last(), info, exported);
        lemma_cwf_concat(crate::transform::decls_wrappers(ds.drop_last(), info, exported), one);
        lemma_hmd_concat(crate::transform::decls_wrappers(ds.drop_last(), info, exported), one);
        match ds.last().name {
            crate::ast::PatV::Ident(name) => {
                match crate::transform::find_workflow(info.workflow_fns, name) {
                    Some(w) => {
                        match ds.last().init {
                            Some(init) => {
                                match crate::collector::extracted_fn_body(*init) {
                                    Some(p) => {
                                        lemma_wrapper_is_clean(
                                            name,
                                            crate::transform::transform_block_spec(p.1, info),
                                            exported,
                                            if exported {
                                                w.is_default_export
                                            } else {
                                                false
                                            },
                                        );
                                        assert(crate::collector::collect_workflow_fns(one) =~= Seq::<
                                            crate::collector::WorkflowFnInfoV,
                                        >::empty());
                                    },
                                    None => {},
                                }
                            },
                            None => {},
                        }
                    },
                    None => {},
                }
            },
            _ => {},
        }
    }
}

/// The first matching entry exists exactly when some entry has the name.
proof fn lemma_find_workflow_some(wfs: Seq<crate::collector::WorkflowFnInfoV>, name: Seq<char>)
    ensures
        (crate::transform::find_workflow(wfs, name) is Some) <==> exists|i: int|
            0 <= i < wfs.len() && (#[trigger] wfs[i]).name == name,
    decreases wfs.len(),
{
    if wfs.len() == 0 {
    } else if wfs[0].name == name {
    } else {
        lemma_find_workflow_some(wfs.drop_first(), name);
        if crate::transform::find_workflow(wfs, name) is Some {
            let i = choose|i: int|
                0 <= i < wfs.drop_first().len() && (#[trigger] wfs.drop_first()[i]).name == name;
            assert(wfs[i + 1].name == name);
        }
        if exists|i: int| 0 <= i < wfs.len() && (#[trigger] wfs[i]).name == name {
            let i = choose|i: int| 0 <= i < wfs.len() && (#[trigger] wfs[i]).name == name;
            assert(i != 0);
            assert(wfs.drop_first()[i - 1].name == name);
        }
    }
}

/// Each item's facts are contained in the module's collected facts.
proof fn lemma_cwf_contains(items: Seq<ModuleItemV>, k: int)
    requires
        0 <= k < items.len(),
    ensures
        forall|x: crate::collector::WorkflowFnInfoV|
            crate::collector::item_workflow_fns(items[k]).contains(x)
                ==> crate::collector::collect_workflow_fns(items).contains(x),
    decreases items.len(),
{
    if k == items.len() - 1 {
        assert(items[k] == items.last());
        assert forall|x: crate::collector::WorkflowFnInfoV|
            crate::collector::item_workflow_fns(items[k]).contains(x) implies crate::collector::collect_workflow_fns(
            items,
        ).contains(x) by {
            let j = choose|j: int|
                0 <= j < crate::collector::item_workflow_fns(items[k]).len()
                    && crate::collector::item_workflow_fns(items[k])[j] == x;
            assert(crate::collector::collect_workflow_fns(items)[crate::collector::collect_workflow_fns(
                items.drop_last(),
            ).len() + j] == x);
        }
    } else {
        lemma_cwf_contains(items.drop_last(), k);
        assert(items.drop_last()[k] == items[k]);
        assert forall|x: crate::collector::WorkflowFnInfoV|
            crate::collector::item_workflow_fns(items[k]).contains(x) implies crate::collector::collect_workflow_fns(
            items,
        ).contains(x) by {
            assert(crate::collector::item_workflow_fns(items.drop_last()[k]).contains(x));
            let prev = crate::collector::collect_workflow_fns(items.drop_last());
            assert(prev.contains(x));
            let j = choose|j: int| 0 <= j < prev.len() && prev[j] == x;
            assert(crate::collector::collect_workflow_fns(items) == prev
                + crate::collector::item_workflow_fns(items.last()));
            assert(crate::collector::collect_workflow_fns(items)[j] == x);
        }
    }
}

proof fn lemma_decls_wf_contains(ds: Seq<crate::ast::VarDeclaratorV>, k: int, e: bool, d: bool)
    requires
        0 <= k < ds.len(),
    ensures
        forall|x: crate::collector::WorkflowFnInfoV|
            crate::collector::declarator_workflow_fns(ds[k], e, d).contains(x)
                ==> crate::collector::decls_workflow_fns(ds, e, d).contains(x),
    decreases ds.len(),
{
    if k == ds.len() - 1 {
        assert(ds[k] == ds.last());
        assert forall|x: crate::collector::WorkflowFnInfoV|
            crate::collector::declarator_workflow_fns(ds[k], e, d).contains(x) implies crate::collector::decls_workflow_fns(
            ds,
            e,
            d,
        ).contains(x) by {
            let j = choose|j: int|
                0 <= j < crate::collector::declarator_workflow_fns(ds[k], e, d).len()
                    && crate::collector::declarator_workflow_fns(ds[k], e, d)[j] == x;
            assert(crate::collector::decls_workflow_fns(ds, e, d)[crate::collector::decls_workflow_fns(
                ds.drop_last(),
                e,
                d,
            ).len() + j] == x);
        }
    } else {
        lemma_decls_wf_contains(ds.drop_last(), k, e, d);
        assert(ds.drop_last()[k] == ds[k]);
        assert forall|x: crate::collector::WorkflowFnInfoV|
            crate::collector::declarator_workflow_fns(ds[k], e, d).contains(x) implies crate::collector::decls_workflow_fns(
            ds,
            e,
            d,
        ).contains(x) by {
            assert(crate::collector::declarator_workflow_fns(ds.drop_last()[k], e, d).contains(x));
            let prev = crate::collector::decls_workflow_fns(ds.drop_last(), e, d);
            assert(prev.contains(x));
            let j = choose|j: int| 0 <= j < prev.len() && prev[j] == x;
            assert(crate::collector::decls_workflow_fns(ds, e, d) == prev
                + crate::collector::declarator_workflow_fns(ds.last(), e, d));
            assert(crate::collector::decls_workflow_fns(ds, e, d)[j] == x);
        }
    }
}

proof fn lemma_decls_wrappers_nonempty(
    ds: Seq<crate::ast::VarDeclaratorV>,
    info: CollectedInfoV,
    exported: bool,
    k: int,
)
    requires
        0 <= k < ds.len(),
        crate::transform::declarator_wrappers(ds[k], info, exported).len() > 0,
    ensures
        crate::transform::decls_wrappers(ds, info, exported).len() > 0,
    decreases ds.len(),
{
    if k == ds.len() - 1 {
        assert(ds[k] == ds.last());
    } else {
        assert(ds.drop_last()[k] == ds[k]);
        lemma_decls_wrappers_nonempty(ds.drop_last(), info, exported, k);
    }
}

/// What one item becomes carries no workflow fact and no module directive,
/// as long as every workflow fact the item itself contributes is registered.
proof fn lemma_item_out_clean(item: ModuleItemV, info: CollectedInfoV)
    requires
        forall|x: crate::collector::WorkflowFnInfoV|
            crate::collector::item_workflow_fns(item).contains(x)
                ==> crate::transform::find_workflow(info.workflow_fns, x.name) is Some,
    ensures
        crate::collector::collect_workflow_fns(item_out(item, info)) =~= Seq::<
            crate::collector::WorkflowFnInfoV,
        >::empty(),
        !has_module_directive(item_out(item, info)),
{
    reveal_with_fuel(crate::collector::collect_workflow_fns, 2);
    reveal_with_fuel(crate::collector::decls_workflow_fns, 2);
    let out = item_out(item, info);
    match item {
        ModuleItemV::Stmt(s) => {
            if is_workflow_directive(s) {
            } else {
                match s {
                    StmtV::Decl(crate::ast::DeclV::Fn(f)) => {
                        if is_step_name(info, f.name) {
                        } else {
                            match crate::transform::find_workflow(info.workflow_fns, f.name) {
                                Some(w) => {
                                    match f.body {
                                        Some(b) => {
                                            lemma_wrapper_is_clean(
                                                f.name,
                                                crate::transform::transform_block_spec(b, info),
                                                false,
                                                false,
                                            );
                                        },
                                        None => {},
                                    }
                                },
                                None => {
                                    // kept: the declaration contributes no fact,
                                    // else its name would be registered.
                                    if crate::collector::fn_workflow_fns(f, false, false).len() > 0 {
                                        let x = crate::collector::fn_workflow_fns(f, false, false)[0];
                                        assert(crate::collector::item_workflow_fns(item).contains(x));
                                        assert(false);
                                    }
                                    assert(crate::collector::collect_workflow_fns(out) =~= Seq::<
                                        crate::collector::WorkflowFnInfoV,
                                    >::empty());
                                },
                            }
                        }
                    },
                    StmtV::Decl(crate::ast::DeclV::Var(v)) => {
                        lemma_var_item_out_clean(item, v, info, false);
                    },
                    _ => {
                        assert(crate::collector::item_workflow_fns(item) =~= Seq::<
                            crate::collector::WorkflowFnInfoV,
                        >::empty());
                        assert(out =~= seq![item]);
                        assert(crate::collector::collect_workflow_fns(out) =~= Seq::<
                            crate::collector::WorkflowFnInfoV,
                        >::empty());
                        assert(!crate::collector::item_is_module_directive(item));
                    },
                }
            }
        },
        ModuleItemV::ExportDecl(crate::ast::DeclV::Fn(f)) => {
            if is_step_name(info, f.name) {
            } else {
                match crate::transform::find_workflow(info.workflow_fns, f.name) {
                    Some(w) => {
                        match f.body {
                            Some(b) => {
                                lemma_wrapper_is_clean(
                                    f.name,
                                    crate::transform::transform_block_spec(b, info),
                                    true,
                                    w.is_default_export,
                                );
                            },
                            None => {},
                        }
                    },
                    None => {
                        if crate::collector::fn_workflow_fns(f, true, false).len() > 0 {
                            let x = crate::collector::fn_workflow_fns(f, true, false)[0];
                            assert(crate::collector::item_workflow_fns(item).contains(x));
                            assert(false);
                        }
                        assert(crate::collector::collect_workflow_fns(out) =~= Seq::<
                            crate::collector::WorkflowFnInfoV,
                        >::empty());
                    },
                }
            }
        },
        ModuleItemV::ExportDecl(crate::ast::DeclV::Var(v)) => {
            lemma_var_item_out_clean(item, v, info, true);
        },
        ModuleItemV::ExportDefaultFn(f) => {
            if is_step_name(info, f.name) {
            } else {
                match crate::transform::find_workflow(info.workflow_fns, f.name) {
                    Some(w) => {
                        match f.body {
                            Some(b) => {
                                lemma_wrapper_is_clean(
                                    f.name,
                                    crate::transform::transform_block_spec(b, info),
                                    true,
                                    true,
                                );
                            },
                            None => {},
                        }
                    },
                    None => {
                        if crate::collector::fn_workflow_fns(f, true, true).len() > 0 {
                            let x = crate::collector::fn_workflow_fns(f, true, true)[0];
                            assert(crate::collector::item_workflow_fns(item).contains(x));
                            assert(false);
                        }
                        assert(crate::collector::collect_workflow_fns(out) =~= Seq::<
                            crate::collector::WorkflowFnInfoV,
                        >::empty());
                    },
                }
            }
        },
        ModuleItemV::Import(_) => {
            assert(out =~= seq![item]);
            assert(crate::collector::collect_workflow_fns(out) =~= Seq::<
                crate::collector::WorkflowFnInfoV,
            >::empty());
        },
    }
}

proof fn lemma_var_item_out_clean(
    item: ModuleItemV,
    v: crate::ast::VarDeclV,
    info: CollectedInfoV,
    exported: bool,
)
    requires
        forall|x: crate::collector::WorkflowFnInfoV|
            crate::collector::item_workflow_fns(item).contains(x)
                ==> crate::transform::find_workflow(info.workflow_fns, x.name) is Some,
        item == if exported {
            ModuleItemV::ExportDecl(crate::ast::DeclV::Var(v))
        } else {
            ModuleItemV::Stmt(StmtV::Decl(crate::ast::DeclV::Var(v)))
        },
    ensures
        crate::collector::collect_workflow_fns(item_out(item, info)) =~= Seq::<
            crate::collector::WorkflowFnInfoV,
        >::empty(),
        !has_module_directive(item_out(item, info)),
{
    reveal_with_fuel(crate::collector::collect_workflow_fns, 2);
    let out = item_out(item, info);
    assert(!is_workflow_directive(StmtV::Decl(crate::ast::DeclV::Var(v))));
    if crate::transform::decls_have_step_name(v.decls, info) {
    } else {
        let ws = crate::transform::decls_wrappers(v.decls, info, exported);
        if ws.len() > 0 {
            lemma_decls_wrappers_clean(v.decls, info, exported);
        } else {
            // kept: no declarator contributes a fact, else its wrapper list
            // would be nonempty.
            assert forall|k: int| 0 <= k < v.decls.len() implies crate::collector::declarator_workflow_fns(
                v.decls[k],
                exported,
                if exported { false } else { false },
            ) =~= Seq::<crate::collector::WorkflowFnInfoV>::empty() by {
                let d = v.decls[k];
                if crate::collector::declarator_workflow_fns(d, exported, false).len() > 0 {
                    let x = crate::collector::declarator_workflow_fns(d, exported, false)[0];
                    lemma_decls_wf_contains(v.decls, k, exported, false);
                    assert(crate::collector::declarator_workflow_fns(d, exported, false).contains(x));
                    assert(crate::collector::item_workflow_fns(item).contains(x));
                    assert(crate::transform::find_workflow(info.workflow_fns, x.name) is Some);
                    assert(x.name == d.name->Ident_0);
                    assert(crate::transform::declarator_wrappers(d, info, exported).len() > 0);
                    lemma_decls_wrappers_nonempty(v.decls, info, exported, k);
                    assert(false);
                }
            }
            lemma_decls_wf_empty(v.decls, exported);
            assert(crate::collector::item_workflow_fns(item) =~= Seq::<
                crate::collector::WorkflowFnInfoV,
            >::empty());
            assert(out =~= seq![item]);
            assert(crate::collector::collect_workflow_fns(out) =~= Seq::<
                crate::collector::WorkflowFnInfoV,
            >::empty());
        }
    }
}

proof fn lemma_decls_wf_empty(ds: Seq<crate::ast::VarDeclaratorV>, exported: bool)
    requires
        forall|k: int|
            0 <= k < ds.len() ==> crate::collector::declarator_workflow_fns(
                #[trigger] ds[k],
                exported,
                false,
            ) =~= Seq::<crate::collector::WorkflowFnInfoV>::empty(),
    ensures
        crate::collector::decls_workflow_fns(ds, exported, false) =~= Seq::<
            crate::collector::WorkflowFnInfoV,
        >::empty(),
    decreases ds.len(),
{
    if ds.len() == 0 {
    } else {
        assert(forall|k: int|
            0 <= k < ds.drop_last().len() ==> #[trigger] ds.drop_last()[k] == ds[k]);
        lemma_decls_wf_empty(ds.drop_last(), exported);
    }
}

proof fn lemma_transform_items_clean(items0: Seq<ModuleItemV>, full: Seq<ModuleItemV>, info: CollectedInfoV)
    requires
        info.workflow_fns == crate::collector::collect_workflow_fns(full),
        forall|k: int| 0 <= k < items0.len() ==> full.contains(#[trigger] items0[k]),
    ensures
        crate::collector::collect_workflow_fns(transform_items(items0, info)) =~= Seq::<
            crate::collector::WorkflowFnInfoV,
        >::empty(),
        !has_module_directive(transform_items(items0, info)),
    decreases items0.len(),
{
    if items0.len() == 0 {
    } else {
        assert(forall|k: int|
            0 <= k < items0.drop_last().len() ==> #[trigger] items0.drop_last()[k] == items0[k]);
        lemma_transform_items_clean(items0.drop_last(), full, info);
        let last = items0.last();
        assert(full.contains(last));
        let kf = choose|kf: int| 0 <= kf < full.len() && full[kf] == last;
        lemma_cwf_contains(full, kf);
        assert forall|x: crate::collector::WorkflowFnInfoV|
            crate::collector::item_workflow_fns(last).contains(x) implies crate::transform::find_workflow(
            info.workflow_fns,
            x.name,
        ) is Some by {
            assert(crate::collector::collect_workflow_fns(full).contains(x));
            let j = choose|j: int|
                0 <= j < info.workflow_fns.len() && info.workflow_fns[j] == x;
            lemma_find_workflow_some(info.workflow_fns, x.name);
        }
        lemma_item_out_clean(last, info);
        lemma_cwf_concat(transform_items(items0.drop_last(), info), item_out(last, info));
        lemma_hmd_concat(transform_items(items0.drop_last(), info), item_out(last, info));
        assert(crate::collector::collect_workflow_fns(transform_items(items0, info)) =~= Seq::<
            crate::collector::WorkflowFnInfoV,
        >::empty());
    }
}

proof fn lemma_prefix_meta_clean(info: CollectedInfoV, cfg: PluginConfigV)
    ensures
        crate::collector::collect_workflow_fns(prefix_items(info, cfg)) =~= Seq::<
            crate::collector::WorkflowFnInfoV,
        >::empty(),
        !has_module_directive(prefix_items(info, cfg)),
        crate::collector::collect_workflow_fns(meta_items(info)) =~= Seq::<
            crate::collector::WorkflowFnInfoV,
        >::empty(),
        !has_module_directive(meta_items(info)),
{
    reveal_with_fuel(crate::collector::collect_workflow_fns, 3);
    reveal_with_fuel(crate::collector::decls_workflow_fns, 2);
    if info.workflow_fns.len() > 0 {
        let meta = workflow_meta_item(
            info.workflow_fns[0].name,
            crate::collector::step_names_of(info.step_fns),
        );
        assert(crate::collector::item_workflow_fns(meta) =~= Seq::<
            crate::collector::WorkflowFnInfoV,
        >::empty());
        assert(crate::collector::collect_workflow_fns(meta_items(info)) =~= Seq::<
            crate::collector::WorkflowFnInfoV,
        >::empty());
    }
    if info.has_invoke {
        assert(crate::collector::collect_workflow_fns(prefix_items(info, cfg)) =~= Seq::<
            crate::collector::WorkflowFnInfoV,
        >::empty());
    } else {
        assert(crate::collector::collect_workflow_fns(prefix_items(info, cfg)) =~= Seq::<
            crate::collector::WorkflowFnInfoV,
        >::empty());
    }
}

/// Applying the workflow-mode transform to its own output is a no-op: the
/// output holds no workflow directive, so collection registers nothing and
/// the short-circuit fires on the second run.
pub proof fn lemma_workflow_idempotent(m: ModuleV, cfg: PluginConfigV)
    ensures
        ({
            let out = workflow_transform(m, collect_module(m), cfg);
            workflow_transform(out, collect_module(out), cfg) == out
        }),
{
    let info = collect_module(m);
    let out = workflow_transform(m, info, cfg);
    if info.workflow_fns.len() == 0 && !info.has_module_workflow_directive {
        assert(out == m);
    } else {
        let ti = transform_items(m.body, info);
        assert(out.body == prefix_items(info, cfg) + ti + meta_items(info));
        assert(forall|k: int| 0 <= k < m.body.len() ==> m.body.contains(#[trigger] m.body[k]));
        lemma_transform_items_clean(m.body, m.body, info);
        lemma_prefix_meta_clean(info, cfg);
        lemma_cwf_concat(prefix_items(info, cfg), ti);
        lemma_cwf_concat(prefix_items(info, cfg) + ti, meta_items(info));
        lemma_hmd_concat(prefix_items(info, cfg), ti);
        lemma_hmd_concat(prefix_items(info, cfg) + ti, meta_items(info));
        assert(crate::collector::collect_workflow_fns(out.body) =~= Seq::<
            crate::collector::WorkflowFnInfoV,
        >::empty());
        assert(!has_module_directive(out.body));
        let info2 = collect_module(out);
        assert(info2.workflow_fns.len() == 0);
        assert(!info2.has_module_workflow_directive);
        assert(workflow_transform(out, info2, cfg) == out);
    }
}

// ── Imports of the rewritten module ─────────────────────────────────

proof fn lemma_hif_concat(a: Seq<ModuleItemV>, b: Seq<ModuleItemV>, src: Seq<char>)
    ensures
        has_import_from(a + b, src) <==> (has_import_from(a, src) || has_import_from(b, src)),
{
    if has_import_from(a + b, src) {
        let i = choose|i: int| 0 <= i < (a + b).len() && item_is_import_from((a + b)[i], src);
        if i < a.len() {
            assert((a + b)[i] == a[i]);
        } else {
            assert((a + b)[i] == b[i - a.len()]);
        }
    }
    if has_import_from(a, src) {
        let i = choose|i: int| 0 <= i < a.len() && item_is_import_from(a[i], src);
        assert((a + b)[i] == a[i]);
    }
    if has_import_from(b, src) {
        let i = choose|i: int| 0 <= i < b.len() && item_is_import_from(b[i], src);
        assert((a + b)[a.len() + i] == b[i]);
    }
}

proof fn lemma_decls_wrappers_no_import(
    ds: Seq<crate::ast::VarDeclaratorV>,
    info: CollectedInfoV,
    exported: bool,
    src: Seq<char>,
)
    ensures
        !has_import_from(crate::transform::decls_wrappers(ds, info, exported), src),
    decreases ds.len(),
{
    if ds.len() == 0 {
    } else {
        lemma_decls_wrappers_no_import(ds.drop_last(), info, exported, src);
        let one = crate::transform::declarator_wrappers(ds.last(), info, exported);
        assert(forall|j: int| 0 <= j < one.len() ==> !item_is_import_from(#[trigger] one[j], src));
        lemma_hif_concat(
            crate::transform::decls_wrappers(ds.drop_last(), info, exported),
            one,
            src,
        );
    }
}

/// What one item becomes imports from a path only if the item itself did.
proof fn lemma_item_out_no_new_import(item: ModuleItemV, info: CollectedInfoV, src: Seq<char>)
    requires
        !item_is_import_from(item, src),
    ensures
        !has_import_from(item_out(item, info), src),
{
    let out = item_out(item, info);
    match item {
        ModuleItemV::Stmt(s) => {
            match s {
                StmtV::Decl(crate::ast::DeclV::Var(v)) => {
                    if is_workflow_directive(s) {
                    } else if crate::transform::decls_have_step_name(v.decls, info) {
                    } else {
                        lemma_decls_wrappers_no_import(v.decls, info, false, src);
                        if crate::transform::decls_wrappers(v.decls, info, false).len() > 0 {
                        } else {
                            assert(forall|j: int|
                                0 <= j < out.len() ==> !item_is_import_from(#[trigger] out[j], src));
                        }
                    }
                },
                _ => {
                    assert(forall|j: int|
                        0 <= j < out.len() ==> !item_is_import_from(#[trigger] out[j], src));
                },
            }
        },
        ModuleItemV::ExportDecl(crate::ast::DeclV::Var(v)) => {
            if crate::transform::decls_have_step_name(v.decls, info) {
            } else {
                lemma_decls_wrappers_no_import(v.decls, info, true, src);
                if crate::transform::decls_wrappers(v.decls, info, true).len() > 0 {
                } else {
                    assert(forall|j: int|
                        0 <= j < out.len() ==> !item_is_import_from(#[trigger] out[j], src));
                }
            }
        },
        _ => {
            assert(forall|j: int|
                0 <= j < out.len() ==> !item_is_import_from(#[trigger] out[j], src));
        },
    }
}

proof fn lemma_transform_items_no_new_import(
    items: Seq<ModuleItemV>,
    info: CollectedInfoV,
    src: Seq<char>,
)
    requires
        !has_import_from(items, src),
    ensures
        !has_import_from(transform_items(items, info), src),
    decreases items.len(),
{
    if items.len() == 0 {
    } else {
        assert(forall|j: int|
            0 <= j < items.drop_last().len() ==> #[trigger] items.drop_last()[j] == items[j]);
        assert(!has_import_from(items.drop_last(), src));
        lemma_transform_items_no_new_import(items.drop_last(), info, src);
        assert(!item_is_import_from(items.last(), src));
        lemma_item_out_no_new_import(items.last(), info, src);
        lemma_hif_concat(transform_items(items.drop_last(), info), item_out(items.last(), info), src);
    }
}

/// A participating module that does not mention `invoke` and does not itself
/// import the remote-invocation SDK gets the durable-execution import but not
/// the remote-invocation one.
pub proof fn lemma_sleep_without_invoke(m: ModuleV, info: CollectedInfoV, cfg: PluginConfigV)
    requires
        info.workflow_fns.len() > 0 || info.has_module_workflow_directive,
        !info.has_invoke,
        !has_import_from(m.body, "@aws-sdk/client-lambda"@),
        cfg.package_name != "@aws-sdk/client-lambda"@,
    ensures
        has_import_from(workflow_transform(m, info, cfg).body, cfg.package_name),
        !has_import_from(workflow_transform(m, info, cfg).body, "@aws-sdk/client-lambda"@),
{
    let src = "@aws-sdk/client-lambda"@;
    let out = workflow_transform(m, info, cfg);
    lemma_sdk_import_always(m, info, cfg);
    let ti = transform_items(m.body, info);
    lemma_transform_items_no_new_import(m.body, info, src);
    assert(forall|j: int|
        0 <= j < prefix_items(info, cfg).len() ==> !item_is_import_from(
            #[trigger] prefix_items(info, cfg)[j],
            src,
        ));
    assert(forall|j: int|
        0 <= j < meta_items(info).len() ==> !item_is_import_from(#[trigger] meta_items(info)[j], src));
    lemma_hif_concat(prefix_items(info, cfg), ti, src);
    lemma_hif_concat(prefix_items(info, cfg) + ti, meta_items(info), src);
}

// ── Client mode preserves the other imports ─────────────────────────

proof fn lemma_descriptors_no_imports(
    items: Seq<ModuleItemV>,
    info: CollectedInfoV,
    cfg: PluginConfigV,
)
    ensures
        forall|j: int|
            0 <= j < crate::transform::client_descriptors(items, info, cfg).len()
                ==> !crate::query::item_is_import(
                #[trigger] crate::transform::client_descriptors(items, info, cfg)[j],
            ),
    decreases items.len(),
{
    if items.len() == 0 {
    } else {
        lemma_descriptors_no_imports(items.drop_last(), info, cfg);
        let prev = crate::transform::client_descriptors(items.drop_last(), info, cfg);
        let one = crate::transform::item_descriptors(items.last(), info, cfg);
        let whole = crate::transform::client_descriptors(items, info, cfg);
        assert(whole == prev + one);
        assert(forall|j: int|
            0 <= j < one.len() ==> !crate::query::item_is_import(#[trigger] one[j]));
        assert forall|j: int|
            0 <= j < whole.len() implies !crate::query::item_is_import(#[trigger] whole[j]) by {
            if j < prev.len() {
                assert(whole[j] == prev[j]);
            } else {
                assert(whole[j] == one[j - prev.len()]);
            }
        }
    }
}

proof fn lemma_filter_none(s: Seq<ModuleItemV>, pred: spec_fn(ModuleItemV) -> bool)
    requires
        forall|j: int| 0 <= j < s.len() ==> !pred(#[trigger] s[j]),
    ensures
        s.filter(pred) =~= Seq::<ModuleItemV>::empty(),
    decreases s.len(),
{
    reveal_with_fuel(Seq::<ModuleItemV>::filter, 2);
    if s.len() == 0 {
    } else {
        assert(forall|j: int|
            0 <= j < s.drop_last().len() ==> #[trigger] s.drop_last()[j] == s[j]);
        lemma_filter_none(s.drop_last(), pred);
    }
}

proof fn lemma_filter_compose(
    s: Seq<ModuleItemV>,
    p: spec_fn(ModuleItemV) -> bool,
    q: spec_fn(ModuleItemV) -> bool,
    pq: spec_fn(ModuleItemV) -> bool,
)
    requires
        forall|x: ModuleItemV| #[trigger] pq(x) <==> (p(x) && q(x)),
    ensures
        s.filter(p).filter(q) == s.filter(pq),
    decreases s.len(),
{
    broadcast use vstd::seq_lib::group_filter_ensures;

    reveal_with_fuel(Seq::<ModuleItemV>::filter, 2);
    if s.len() == 0 {
        assert(s.filter(p).filter(q) =~= s.filter(pq));
    } else {
        lemma_filter_compose(s.drop_last(), p, q, pq);
        let a = s.drop_last();
        let l = s.last();
        if p(l) {
            assert(s.filter(p) == a.filter(p).push(l));
            assert(a.filter(p).push(l) =~= a.filter(p) + seq![l]);
            Seq::<ModuleItemV>::filter_distributes_over_add(a.filter(p), seq![l], q);
            assert(seq![l].drop_last() =~= Seq::<ModuleItemV>::empty());
            if q(l) {
                assert(seq![l].filter(q) =~= seq![l]);
                assert(s.filter(p).filter(q) =~= s.filter(pq));
            } else {
                assert(seq![l].filter(q) =~= Seq::<ModuleItemV>::empty());
                assert(s.filter(p).filter(q) =~= s.filter(pq));
            }
        } else {
            assert(s.filter(p) == a.filter(p));
            assert(s.filter(p).filter(q) =~= s.filter(pq));
        }
    }
}

/// Client mode: no import from a collected relative source remains, and the
/// other imports survive unchanged, in their original relative order.
pub proof fn lemma_client_imports(m: ModuleV, info: CollectedInfoV, cfg: PluginConfigV)
    requires
        info.workflow_imports.len() > 0,
    ensures
        client_transform(m, info, cfg).body.filter(
            |it: ModuleItemV| crate::query::item_is_import(it),
        ) == m.body.filter(
            |it: ModuleItemV|
                crate::query::item_is_import(it) && !crate::transform::item_is_replaced_import(
                    it,
                    info,
                ),
        ),
        forall|j: int|
            0 <= j < client_transform(m, info, cfg).body.len()
                ==> !crate::transform::item_is_replaced_import(
                #[trigger] client_transform(m, info, cfg).body[j],
                info,
            ),
{
    broadcast use vstd::seq_lib::group_filter_ensures;

    let is_import = |it: ModuleItemV| crate::query::item_is_import(it);
    let keep = |it: ModuleItemV| !crate::transform::item_is_replaced_import(it, info);
    let both = |it: ModuleItemV|
        crate::query::item_is_import(it) && !crate::transform::item_is_replaced_import(it, info);
    let out = client_transform(m, info, cfg);
    let kept = crate::transform::kept_items(m.body, info);
    let descs = crate::transform::client_descriptors(m.body, info, cfg);
    let p = crate::transform::first_non_import(kept);
    lemma_first_non_import_range(kept);
    assert(out.body == kept.take(p) + descs + kept.skip(p));

    Seq::<ModuleItemV>::filter_distributes_over_add(kept.take(p), descs, is_import);
    Seq::<ModuleItemV>::filter_distributes_over_add(kept.take(p) + descs, kept.skip(p), is_import);
    assert(out.body.filter(is_import) == (kept.take(p).filter(is_import) + descs.filter(is_import))
        + kept.skip(p).filter(is_import));
    lemma_descriptors_no_imports(m.body, info, cfg);
    lemma_filter_none(descs, is_import);
    assert(kept.take(p).filter(is_import) + descs.filter(is_import) =~= kept.take(p).filter(
        is_import,
    ));
    Seq::<ModuleItemV>::filter_distributes_over_add(kept.take(p), kept.skip(p), is_import);
    assert(kept.take(p) + kept.skip(p) =~= kept);
    assert((kept.take(p) + kept.skip(p)).filter(is_import) == kept.filter(is_import));
    assert(out.body.filter(is_import) =~= kept.filter(is_import));

    // kept is m.body filtered by `keep`; composing the two filters gives the
    // single filter over both predicates. The swapped composition order is
    // bridged by composing both ways to the same combined predicate.
    let both2 = |it: ModuleItemV|
        !crate::transform::item_is_replaced_import(it, info) && crate::query::item_is_import(it);
    lemma_filter_compose(m.body, keep, is_import, both2);
    assert(kept.filter(is_import) == m.body.filter(both2));
    assert(forall|x: ModuleItemV| #[trigger] both(x) <==> both2(x));
    lemma_filter_eq_pred(m.body, both, both2);

    // No replaced import remains: a replaced import is an import, so it would
    // stand in the filtered sequence, whose members all satisfy `keep`.
    assert forall|j: int|
        0 <= j < out.body.len() implies !crate::transform::item_is_replaced_import(
        #[trigger] out.body[j],
        info,
    ) by {
        if crate::transform::item_is_replaced_import(out.body[j], info) {
            assert(crate::query::item_is_import(out.body[j]));
            assert(out.body.filter(is_import).contains(out.body[j]));
            let k = choose|k: int|
                0 <= k < out.body.filter(is_import).len() && out.body.filter(is_import)[k]
                    == out.body[j];
            assert(m.body.filter(both2)[k] == out.body[j]);
            assert(both2(m.body.filter(both2)[k]));
            assert(false);
        }
    }
}

proof fn lemma_first_non_import_range(items: Seq<ModuleItemV>)
    ensures
        0 <= crate::transform::first_non_import(items) <= items.len(),
    decreases items.len(),
{
    if items.len() == 0 {
    } else if items[0] matches ModuleItemV::Import(_) {
        lemma_first_non_import_range(items.drop_first());
    }
}

proof fn lemma_filter_eq_pred(
    s: Seq<ModuleItemV>,
    p: spec_fn(ModuleItemV) -> bool,
    q: spec_fn(ModuleItemV) -> bool,
)
    requires
        forall|x: ModuleItemV| #[trigger] p(x) <==> q(x),
    ensures
        s.filter(p) == s.filter(q),
    decreases s.len(),
{
    reveal_with_fuel(Seq::<ModuleItemV>::filter, 2);
    if s.len() == 0 {
        assert(s.filter(p) =~= s.filter(q));
    } else {
        lemma_filter_eq_pred(s.drop_last(), p, q);
        assert(s.filter(p) =~= s.filter(q));
    }
}

} // verus!
