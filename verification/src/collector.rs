//! The read-only first pass.
//!
//! One traversal over a module's top-level item sequence produces an
//! immutable fact sheet: which top-level functions carry a workflow or step
//! directive, which imports use relative source paths, whether a reserved
//! helper call appears anywhere in the tree, and whether the module itself
//! carries a top-level workflow directive. Collection never fails:
//! constructs outside the supported shapes contribute no facts.

use vstd::prelude::*;
use vstd::string::StrSliceExecFns;

use crate::ast::{
    view_args, view_arrow_body, view_block, view_decl, view_declarator, view_declarators,
    view_expr, view_fn_decl, view_item, view_items, view_props, view_stmt, view_stmts,
    view_var_decl, ArrowBody, ArrowBodyV, BlockStmt, Decl, DeclV, Expr, ExprOrSpread,
    ExprOrSpreadV, ExprV, FnDeclV, ImportSpecifierV, Module, ModuleItem, ModuleItemV, Pat, PatV,
    Prop, PropV, Stmt, StmtV, VarDeclaratorV,
};
use crate::config::PluginConfig;
use crate::directive::{is_use_workflow_directive, is_workflow_directive, stmts_have_directive};

verus! {

broadcast use vstd::std_specs::vec::group_vec_axioms;

// ── The fact sheet ──────────────────────────────────────────────────

/// Info about a function with a `"use workflow"` directive.
#[derive(Debug)]
pub struct WorkflowFnInfo {
    pub name: String,
    pub is_exported: bool,
    pub is_default_export: bool,
    pub is_async: bool,
}

#[verifier::ext_equal]
pub struct WorkflowFnInfoV {
    pub name: Seq<char>,
    pub is_exported: bool,
    pub is_default_export: bool,
    pub is_async: bool,
}

impl DeepView for WorkflowFnInfo {
    type V = WorkflowFnInfoV;

    open spec fn deep_view(&self) -> WorkflowFnInfoV {
        WorkflowFnInfoV {
            name: self.name@,
            is_exported: self.is_exported,
            is_default_export: self.is_default_export,
            is_async: self.is_async,
        }
    }
}

/// Info about a function with a `"use step"` directive. The body is captured
/// by value: the declaration is deleted and the statements are spliced, via
/// an independent clone, into every call site.
#[derive(Debug)]
pub struct StepFnInfo {
    pub name: String,
    pub body: BlockStmt,
}

#[verifier::ext_equal]
pub struct StepFnInfoV {
    pub name: Seq<char>,
    pub body: Seq<StmtV>,
}

pub open spec fn view_step_fn(s: StepFnInfo) -> StepFnInfoV {
    StepFnInfoV { name: s.name@, body: view_block(s.body) }
}

pub open spec fn view_step_fns(ss: Seq<StepFnInfo>) -> Seq<StepFnInfoV> {
    Seq::new(ss.len(), |i: int| if 0 <= i < ss.len() { view_step_fn(ss[i]) } else { arbitrary() })
}

/// Info about one specifier of an import with a relative source path.
#[derive(Debug)]
pub struct WorkflowImportInfo {
    pub local_name: String,
    pub imported_name: String,
    pub source: String,
}

#[verifier::ext_equal]
pub struct WorkflowImportInfoV {
    pub local_name: Seq<char>,
    pub imported_name: Seq<char>,
    pub source: Seq<char>,
}

impl DeepView for WorkflowImportInfo {
    type V = WorkflowImportInfoV;

    open spec fn deep_view(&self) -> WorkflowImportInfoV {
        WorkflowImportInfoV {
            local_name: self.local_name@,
            imported_name: self.imported_name@,
            source: self.source@,
        }
    }
}

/// The immutable fact sheet produced by the collection pass.
#[derive(Debug)]
pub struct CollectedInfo {
    pub workflow_fns: Vec<WorkflowFnInfo>,
    pub step_fns: Vec<StepFnInfo>,
    pub workflow_imports: Vec<WorkflowImportInfo>,
    pub has_invoke: bool,
    pub has_sleep: bool,
    pub has_wait_for_callback: bool,
    /// Names of functions with step directives, so they can be removed.
    pub step_fn_names: Vec<String>,
    /// Whether the module itself has a top-level `"use workflow"` directive.
    pub has_module_workflow_directive: bool,
}

#[verifier::ext_equal]
pub struct CollectedInfoV {
    pub workflow_fns: Seq<WorkflowFnInfoV>,
    pub step_fns: Seq<StepFnInfoV>,
    pub workflow_imports: Seq<WorkflowImportInfoV>,
    pub has_invoke: bool,
    pub has_sleep: bool,
    pub has_wait_for_callback: bool,
    pub step_fn_names: Seq<Seq<char>>,
    pub has_module_workflow_directive: bool,
}

pub open spec fn view_info(info: CollectedInfo) -> CollectedInfoV {
    CollectedInfoV {
        workflow_fns: info.workflow_fns.deep_view(),
        step_fns: view_step_fns(info.step_fns@),
        workflow_imports: info.workflow_imports.deep_view(),
        has_invoke: info.has_invoke,
        has_sleep: info.has_sleep,
        has_wait_for_callback: info.has_wait_for_callback,
        step_fn_names: info.step_fn_names.deep_view(),
        has_module_workflow_directive: info.has_module_workflow_directive,
    }
}

// ── What collection means ───────────────────────────────────────────

/// A source path is relative when it starts with `./` or `../`.
pub open spec fn is_relative_src(s: Seq<char>) -> bool {
    (s.len() >= 2 && s[0] == '.' && s[1] == '/') || (s.len() >= 3 && s[0] == '.' && s[1] == '.'
        && s[2] == '/')
}

/// A function or arrow literal with a block body, reduced to the pair the
/// collector reads: the async flag and the block's statements.
pub open spec fn extracted_fn_body(e: ExprV) -> Option<(bool, Seq<StmtV>)> {
    match e {
        ExprV::Arrow { params, body, is_async } => match body {
            ArrowBodyV::Block(stmts) => Some((is_async, stmts)),
            ArrowBodyV::Expr(_) => None,
        },
        ExprV::FnExpr { name, is_async, params, body } => match body {
            Some(stmts) => Some((is_async, stmts)),
            None => None,
        },
        _ => None,
    }
}

/// The workflow-function facts one top-level item contributes: its position
/// under an export declaration stamps the two export flags.
pub open spec fn item_workflow_fns(item: ModuleItemV) -> Seq<WorkflowFnInfoV> {
    match item {
        ModuleItemV::Stmt(StmtV::Decl(DeclV::Fn(f))) => fn_workflow_fns(f, false, false),
        ModuleItemV::Stmt(StmtV::Decl(DeclV::Var(v))) => decls_workflow_fns(v.decls, false, false),
        ModuleItemV::ExportDecl(DeclV::Fn(f)) => fn_workflow_fns(f, true, false),
        ModuleItemV::ExportDecl(DeclV::Var(v)) => decls_workflow_fns(v.decls, true, false),
        ModuleItemV::ExportDefaultFn(f) => fn_workflow_fns(f, true, true),
        _ => Seq::empty(),
    }
}

pub open spec fn fn_workflow_fns(f: FnDeclV, is_exported: bool, is_default: bool) -> Seq<
    WorkflowFnInfoV,
> {
    match f.body {
        Some(b) => if stmts_have_directive(b, "use workflow"@) {
            seq![
                WorkflowFnInfoV {
                    name: f.name,
                    is_exported: is_exported,
                    is_default_export: is_default,
                    is_async: f.is_async,
                },
            ]
        } else {
            Seq::empty()
        },
        None => Seq::empty(),
    }
}

pub open spec fn declarator_workflow_fns(
    d: VarDeclaratorV,
    is_exported: bool,
    is_default: bool,
) -> Seq<WorkflowFnInfoV> {
    match d.name {
        PatV::Ident(name) => match d.init {
            Some(init) => match extracted_fn_body(*init) {
                Some((is_async, stmts)) => if stmts_have_directive(stmts, "use workflow"@) {
                    seq![
                        WorkflowFnInfoV {
                            name: name,
                            is_exported: is_exported,
                            is_default_export: is_default,
                            is_async: is_async,
                        },
                    ]
                } else {
                    Seq::empty()
                },
                None => Seq::empty(),
            },
            None => Seq::empty(),
        },
        _ => Seq::empty(),
    }
}

pub open spec fn decls_workflow_fns(
    ds: Seq<VarDeclaratorV>,
    is_exported: bool,
    is_default: bool,
) -> Seq<WorkflowFnInfoV>
    decreases ds.len(),
{
    if ds.len() == 0 {
        Seq::empty()
    } else {
        decls_workflow_fns(ds.drop_last(), is_exported, is_default) + declarator_workflow_fns(
            ds.last(),
            is_exported,
            is_default,
        )
    }
}

pub open spec fn collect_workflow_fns(items: Seq<ModuleItemV>) -> Seq<WorkflowFnInfoV>
    decreases items.len(),
{
    if items.len() == 0 {
        Seq::empty()
    } else {
        collect_workflow_fns(items.drop_last()) + item_workflow_fns(items.last())
    }
}

/// The step-function facts one top-level item contributes, before the
/// module-wide first-wins deduplication.
pub open spec fn item_step_fns(item: ModuleItemV) -> Seq<StepFnInfoV> {
    match item {
        ModuleItemV::Stmt(StmtV::Decl(DeclV::Fn(f))) => fn_step_fns(f),
        ModuleItemV::Stmt(StmtV::Decl(DeclV::Var(v))) => decls_step_fns(v.decls),
        ModuleItemV::ExportDecl(DeclV::Fn(f)) => fn_step_fns(f),
        ModuleItemV::ExportDecl(DeclV::Var(v)) => decls_step_fns(v.decls),
        ModuleItemV::ExportDefaultFn(f) => fn_step_fns(f),
        _ => Seq::empty(),
    }
}

pub open spec fn fn_step_fns(f: FnDeclV) -> Seq<StepFnInfoV> {
    match f.body {
        Some(b) => if stmts_have_directive(b, "use step"@) {
            seq![StepFnInfoV { name: f.name, body: b }]
        } else {
            Seq::empty()
        },
        None => Seq::empty(),
    }
}

pub open spec fn declarator_step_fns(d: VarDeclaratorV) -> Seq<StepFnInfoV> {
    match d.name {
        PatV::Ident(name) => match d.init {
            Some(init) => match extracted_fn_body(*init) {
                Some((is_async, stmts)) => if stmts_have_directive(stmts, "use step"@) {
                    seq![StepFnInfoV { name: name, body: stmts }]
                } else {
                    Seq::empty()
                },
                None => Seq::empty(),
            },
            None => Seq::empty(),
        },
        _ => Seq::empty(),
    }
}

pub open spec fn decls_step_fns(ds: Seq<VarDeclaratorV>) -> Seq<StepFnInfoV>
    decreases ds.len(),
{
    if ds.len() == 0 {
        Seq::empty()
    } else {
        decls_step_fns(ds.drop_last()) + declarator_step_fns(ds.last())
    }
}

pub open spec fn step_has_name(ss: Seq<StepFnInfoV>, name: Seq<char>) -> bool {
    exists|i: int| 0 <= i < ss.len() && ss[i].name == name
}

/// Append new step facts to the accumulated ones; when two declarations
/// share a name, the first directive wins (the documented policy for the
/// name-collision hazard of name-keyed registration).
pub open spec fn merge_step_fns(acc: Seq<StepFnInfoV>, new: Seq<StepFnInfoV>) -> Seq<StepFnInfoV>
    decreases new.len(),
{
    if new.len() == 0 {
        acc
    } else {
        let merged = merge_step_fns(acc, new.drop_last());
        if step_has_name(merged, new.last().name) {
            merged
        } else {
            merged.push(new.last())
        }
    }
}

pub open spec fn collect_step_fns(items: Seq<ModuleItemV>) -> Seq<StepFnInfoV>
    decreases items.len(),
{
    if items.len() == 0 {
        Seq::empty()
    } else {
        merge_step_fns(collect_step_fns(items.drop_last()), item_step_fns(items.last()))
    }
}

pub open spec fn step_names_of(ss: Seq<StepFnInfoV>) -> Seq<Seq<char>> {
    Seq::new(ss.len(), |i: int| if 0 <= i < ss.len() { ss[i].name } else { arbitrary() })
}

/// Every step name, recorded once per declaration, duplicates kept.
pub open spec fn collect_step_names(items: Seq<ModuleItemV>) -> Seq<Seq<char>>
    decreases items.len(),
{
    if items.len() == 0 {
        Seq::empty()
    } else {
        collect_step_names(items.drop_last()) + step_names_of(item_step_fns(items.last()))
    }
}

/// The import facts of one item: one record per specifier of an import with
/// a relative source path.
pub open spec fn item_imports(item: ModuleItemV) -> Seq<WorkflowImportInfoV> {
    match item {
        ModuleItemV::Import(d) => if is_relative_src(d.src) {
            specifier_imports(d.specifiers, d.src)
        } else {
            Seq::empty()
        },
        _ => Seq::empty(),
    }
}

pub open spec fn specifier_import(s: ImportSpecifierV, src: Seq<char>) -> WorkflowImportInfoV {
    match s {
        ImportSpecifierV::Named { local, imported } => WorkflowImportInfoV {
            local_name: local,
            imported_name: match imported {
                Some(name) => name,
                None => local,
            },
            source: src,
        },
        ImportSpecifierV::Default { local } => WorkflowImportInfoV {
            local_name: local,
            imported_name: "default"@,
            source: src,
        },
        ImportSpecifierV::Namespace { local } => WorkflowImportInfoV {
            local_name: local,
            imported_name: "*"@,
            source: src,
        },
    }
}

pub open spec fn specifier_imports(ss: Seq<ImportSpecifierV>, src: Seq<char>) -> Seq<
    WorkflowImportInfoV,
> {
    Seq::new(ss.len(), |i: int| if 0 <= i < ss.len() { specifier_import(ss[i], src) } else { arbitrary() })
}

pub open spec fn collect_imports(items: Seq<ModuleItemV>) -> Seq<WorkflowImportInfoV>
    decreases items.len(),
{
    if items.len() == 0 {
        Seq::empty()
    } else {
        collect_imports(items.drop_last()) + item_imports(items.last())
    }
}

pub open spec fn item_is_module_directive(item: ModuleItemV) -> bool {
    match item {
        ModuleItemV::Stmt(s) => is_workflow_directive(s),
        _ => false,
    }
}

/// A bare `"use workflow"` directive stands as a direct top-level statement.
pub open spec fn has_module_directive(items: Seq<ModuleItemV>) -> bool {
    exists|i: int| 0 <= i < items.len() && item_is_module_directive(#[trigger] items[i])
}

// ── Reserved calls anywhere in the tree ─────────────────────────────

pub open spec fn items_mention_call(items: Seq<ModuleItemV>, name: Seq<char>) -> bool
    decreases items,
{
    exists|i: int| 0 <= i < items.len() && item_mentions_call(#[trigger] items[i], name)
}

pub open spec fn item_mentions_call(item: ModuleItemV, name: Seq<char>) -> bool
    decreases item,
{
    match item {
        ModuleItemV::Import(_) => false,
        ModuleItemV::ExportDecl(d) => decl_mentions_call(d, name),
        ModuleItemV::ExportDefaultFn(f) => fn_body_mentions_call(f.body, name),
        ModuleItemV::Stmt(s) => stmt_mentions_call(s, name),
    }
}

pub open spec fn fn_body_mentions_call(body: Option<Seq<StmtV>>, name: Seq<char>) -> bool
    decreases body,
{
    match body {
        Some(b) => stmts_mention_call(b, name),
        None => false,
    }
}

pub open spec fn decl_mentions_call(d: DeclV, name: Seq<char>) -> bool
    decreases d,
{
    match d {
        DeclV::Fn(f) => fn_body_mentions_call(f.body, name),
        DeclV::Var(v) => declarators_mention_call(v.decls, name),
    }
}

pub open spec fn declarators_mention_call(ds: Seq<VarDeclaratorV>, name: Seq<char>) -> bool
    decreases ds,
{
    exists|i: int| 0 <= i < ds.len() && declarator_mentions_call(#[trigger] ds[i], name)
}

pub open spec fn declarator_mentions_call(d: VarDeclaratorV, name: Seq<char>) -> bool
    decreases d,
{
    match d.init {
        Some(e) => expr_mentions_call(*e, name),
        None => false,
    }
}

pub open spec fn stmts_mention_call(ss: Seq<StmtV>, name: Seq<char>) -> bool
    decreases ss,
{
    exists|i: int| 0 <= i < ss.len() && stmt_mentions_call(#[trigger] ss[i], name)
}

pub open spec fn stmt_mentions_call(s: StmtV, name: Seq<char>) -> bool
    decreases s,
{
    match s {
        StmtV::Expr(e) => expr_mentions_call(*e, name),
        StmtV::Decl(d) => decl_mentions_call(d, name),
        StmtV::Return(arg) => match arg {
            Some(e) => expr_mentions_call(*e, name),
            None => false,
        },
        StmtV::If { cond, cons, alt } => expr_mentions_call(*cond, name) || stmt_mentions_call(
            *cons,
            name,
        ) || match alt {
            Some(s2) => stmt_mentions_call(*s2, name),
            None => false,
        },
        StmtV::Block(b) => stmts_mention_call(b, name),
        StmtV::While { cond, body } => expr_mentions_call(*cond, name) || stmt_mentions_call(
            *body,
            name,
        ),
        StmtV::Throw(e) => expr_mentions_call(*e, name),
        StmtV::Empty => false,
    }
}

pub open spec fn args_mention_call(args: Seq<ExprOrSpreadV>, name: Seq<char>) -> bool
    decreases args,
{
    exists|i: int| 0 <= i < args.len() && expr_mentions_call((#[trigger] args[i]).expr, name)
}

pub open spec fn props_mention_call(ps: Seq<PropV>, name: Seq<char>) -> bool
    decreases ps,
{
    exists|i: int| 0 <= i < ps.len() && expr_mentions_call((#[trigger] ps[i]).value, name)
}

pub open spec fn expr_mentions_call(e: ExprV, name: Seq<char>) -> bool
    decreases e,
{
    match e {
        ExprV::Ident(_) => false,
        ExprV::Str(_) => false,
        ExprV::Bool(_) => false,
        ExprV::Num(_) => false,
        ExprV::Array(elems) => args_mention_call(elems, name),
        ExprV::Object(props) => props_mention_call(props, name),
        ExprV::Call { callee, args } => (*callee matches ExprV::Ident(id) && id == name)
            || expr_mentions_call(*callee, name) || args_mention_call(args, name),
        ExprV::New { callee, args } => expr_mentions_call(*callee, name) || args_mention_call(
            args,
            name,
        ),
        ExprV::Member { obj, prop } => expr_mentions_call(*obj, name),
        ExprV::Await(arg) => expr_mentions_call(*arg, name),
        ExprV::Assign { target, value } => expr_mentions_call(*target, name) || expr_mentions_call(
            *value,
            name,
        ),
        ExprV::Arrow { params, body, is_async } => match body {
            ArrowBodyV::Block(stmts) => stmts_mention_call(stmts, name),
            ArrowBodyV::Expr(e2) => expr_mentions_call(*e2, name),
        },
        ExprV::FnExpr { name: fn_name, is_async, params, body } => fn_body_mentions_call(body, name),
        ExprV::Bin { op, left, right } => expr_mentions_call(*left, name) || expr_mentions_call(
            *right,
            name,
        ),
        ExprV::Unary { op, arg } => expr_mentions_call(*arg, name),
    }
}

/// The fact sheet of a whole item sequence.
pub open spec fn collect_items(items: Seq<ModuleItemV>) -> CollectedInfoV {
    CollectedInfoV {
        workflow_fns: collect_workflow_fns(items),
        step_fns: collect_step_fns(items),
        workflow_imports: collect_imports(items),
        has_invoke: items_mention_call(items, "invoke"@),
        has_sleep: items_mention_call(items, "sleep"@),
        has_wait_for_callback: items_mention_call(items, "waitForCallback"@),
        step_fn_names: collect_step_names(items),
        has_module_workflow_directive: has_module_directive(items),
    }
}

pub open spec fn collect_module(m: crate::ast::ModuleV) -> CollectedInfoV {
    collect_items(m.body)
}

// ── The reserved-call scan, executable ──────────────────────────────

fn ident_eq(e: &Expr, name: &str) -> (r: bool)
    ensures
        r == (view_expr(*e) matches ExprV::Ident(id) && id == name@),
{
    match e {
        Expr::Ident(id) => *id == name.to_owned(),
        _ => false,
    }
}

fn item_mentions(item: &ModuleItem, name: &str) -> (r: bool)
    ensures
        r == item_mentions_call(view_item(*item), name@),
    decreases item,
{
    match item {
        ModuleItem::Import(_) => false,
        ModuleItem::ExportDecl(d) => decl_mentions(d, name),
        ModuleItem::ExportDefaultFn(f) => match &f.body {
            Some(b) => stmts_mention(&b.stmts, name),
            None => false,
        },
        ModuleItem::Stmt(s) => stmt_mentions(s, name),
    }
}

fn decl_mentions(d: &Decl, name: &str) -> (r: bool)
    ensures
        r == decl_mentions_call(view_decl(*d), name@),
    decreases d,
{
    match d {
        Decl::Fn(f) => match &f.body {
            Some(b) => stmts_mention(&b.stmts, name),
            None => false,
        },
        Decl::Var(v) => declarators_mention(&v.decls, name),
    }
}

fn declarators_mention(ds: &Vec<crate::ast::VarDeclarator>, name: &str) -> (r: bool)
    ensures
        r == declarators_mention_call(view_declarators(ds@), name@),
    decreases ds,
{
    let ghost dsv = view_declarators(ds@);
    let mut i: usize = 0;
    while i < ds.len()
        invariant
            i <= ds.len(),
            dsv == view_declarators(ds@),
            forall|j: int| 0 <= j < i ==> !declarator_mentions_call(#[trigger] dsv[j], name@),
        decreases ds.len() - i,
    {
        if declarator_mentions(&ds[i], name) {
            assert(declarator_mentions_call(dsv[i as int], name@));
            return true;
        }
        i = i + 1;
    }
    false
}

fn declarator_mentions(d: &crate::ast::VarDeclarator, name: &str) -> (r: bool)
    ensures
        r == declarator_mentions_call(view_declarator(*d), name@),
    decreases d,
{
    match &d.init {
        Some(e) => expr_mentions(&**e, name),
        None => false,
    }
}

fn stmts_mention(ss: &Vec<Stmt>, name: &str) -> (r: bool)
    ensures
        r == stmts_mention_call(view_stmts(ss@), name@),
    decreases ss,
{
    let ghost ssv = view_stmts(ss@);
    let mut i: usize = 0;
    while i < ss.len()
        invariant
            i <= ss.len(),
            ssv == view_stmts(ss@),
            forall|j: int| 0 <= j < i ==> !stmt_mentions_call(#[trigger] ssv[j], name@),
        decreases ss.len() - i,
    {
        if stmt_mentions(&ss[i], name) {
            assert(stmt_mentions_call(ssv[i as int], name@));
            return true;
        }
        i = i + 1;
    }
    false
}

fn stmt_mentions(s: &Stmt, name: &str) -> (r: bool)
    ensures
        r == stmt_mentions_call(view_stmt(*s), name@),
    decreases s,
{
    proof {
        reveal_with_fuel(view_stmt, 2);
    }
    match s {
        Stmt::Expr(e) => expr_mentions(&**e, name),
        Stmt::Decl(d) => decl_mentions(d, name),
        Stmt::Return(arg) => match arg {
            Some(e) => expr_mentions(&**e, name),
            None => false,
        },
        Stmt::If { cond, cons, alt } => {
            let in_alt = match alt {
                Some(s2) => stmt_mentions(&**s2, name),
                None => false,
            };
            expr_mentions(&**cond, name) || stmt_mentions(&**cons, name) || in_alt
        },
        Stmt::Block(b) => stmts_mention(&b.stmts, name),
        Stmt::While { cond, body } => expr_mentions(&**cond, name) || stmt_mentions(&**body, name),
        Stmt::Throw(e) => expr_mentions(&**e, name),
        Stmt::Empty => false,
    }
}

fn args_mention(args: &Vec<ExprOrSpread>, name: &str) -> (r: bool)
    ensures
        r == args_mention_call(view_args(args@), name@),
    decreases args,
{
    let ghost argsv = view_args(args@);
    let mut i: usize = 0;
    while i < args.len()
        invariant
            i <= args.len(),
            argsv == view_args(args@),
            forall|j: int| 0 <= j < i ==> !expr_mentions_call((#[trigger] argsv[j]).expr, name@),
        decreases args.len() - i,
    {
        if expr_mentions(&args[i].expr, name) {
            assert(expr_mentions_call(argsv[i as int].expr, name@));
            return true;
        }
        i = i + 1;
    }
    false
}

fn props_mention(ps: &Vec<Prop>, name: &str) -> (r: bool)
    ensures
        r == props_mention_call(view_props(ps@), name@),
    decreases ps,
{
    let ghost psv = view_props(ps@);
    let mut i: usize = 0;
    while i < ps.len()
        invariant
            i <= ps.len(),
            psv == view_props(ps@),
            forall|j: int| 0 <= j < i ==> !expr_mentions_call((#[trigger] psv[j]).value, name@),
        decreases ps.len() - i,
    {
        if expr_mentions(&ps[i].value, name) {
            assert(expr_mentions_call(psv[i as int].value, name@));
            return true;
        }
        i = i + 1;
    }
    false
}

fn expr_mentions(e: &Expr, name: &str) -> (r: bool)
    ensures
        r == expr_mentions_call(view_expr(*e), name@),
    decreases e,
{
    proof {
        reveal_with_fuel(view_expr, 3);
        reveal_with_fuel(view_arrow_body, 2);
        reveal_with_fuel(view_block, 2);
        reveal_with_fuel(expr_mentions_call, 2);
    }
    match e {
        Expr::Ident(_) => false,
        Expr::Str(_) => false,
        Expr::Bool(_) => false,
        Expr::Num(_) => false,
        Expr::Array(elems) => args_mention(elems, name),
        Expr::Object(props) => props_mention(props, name),
        Expr::Call { callee, args } => ident_eq(&**callee, name) || expr_mentions(&**callee, name)
            || args_mention(args, name),
        Expr::New { callee, args } => expr_mentions(&**callee, name) || args_mention(args, name),
        Expr::Member { obj, prop } => expr_mentions(&**obj, name),
        Expr::Await(arg) => expr_mentions(&**arg, name),
        Expr::Assign { target, value } => expr_mentions(&**target, name) || expr_mentions(
            &**value,
            name,
        ),
        Expr::Arrow { params, body, is_async } => match body {
            ArrowBody::Block(b) => stmts_mention(&b.stmts, name),
            ArrowBody::Expr(e2) => expr_mentions(&**e2, name),
        },
        Expr::FnExpr { name: fn_name, is_async, params, body } => match body {
            Some(b) => stmts_mention(&b.stmts, name),
            None => false,
        },
        Expr::Bin { op, left, right } => expr_mentions(&**left, name) || expr_mentions(
            &**right,
            name,
        ),
        Expr::Unary { op, arg } => expr_mentions(&**arg, name),
    }
}

// ── Executable collection ───────────────────────────────────────────

/// The source path starts with `./` or `../`.
fn is_relative_path(s: &String) -> (r: bool)
    ensures
        r == is_relative_src(s@),
{
    let st = s.as_str();
    let n = st.unicode_len();
    if n >= 2 && st.get_char(0) == '.' && st.get_char(1) == '/' {
        true
    } else {
        n >= 3 && st.get_char(0) == '.' && st.get_char(1) == '.' && st.get_char(2) == '/'
    }
}

/// A function or arrow literal with a block body, reduced to the async flag
/// and the block.
pub(crate) fn extract_fn_body<'a>(e: &'a Expr) -> (r: Option<(bool, &'a BlockStmt)>)
    ensures
        match r {
            Some(p) => extracted_fn_body(view_expr(*e)) == Some((p.0, view_block(*p.1))),
            None => extracted_fn_body(view_expr(*e)) is None,
        },
{
    proof {
        reveal_with_fuel(view_expr, 2);
        reveal_with_fuel(view_arrow_body, 2);
        reveal_with_fuel(view_block, 2);
    }
    match e {
        Expr::Arrow { params, body, is_async } => match body {
            ArrowBody::Block(b) => Some((*is_async, b)),
            ArrowBody::Expr(_) => None,
        },
        Expr::FnExpr { name, is_async, params, body } => match body {
            Some(b) => Some((*is_async, b)),
            None => None,
        },
        _ => None,
    }
}

/// Append the workflow-function facts of one top-level item.
fn push_item_workflow_fns(r: &mut Vec<WorkflowFnInfo>, item: &ModuleItem)
    ensures
        final(r).deep_view() == old(r).deep_view() + item_workflow_fns(view_item(*item)),
{
    proof {
        reveal_with_fuel(view_stmt, 2);
        reveal_with_fuel(view_decl, 2);
    }
    match item {
        ModuleItem::Stmt(Stmt::Decl(Decl::Fn(f))) => push_fn_workflow_fns(r, f, false, false),
        ModuleItem::Stmt(Stmt::Decl(Decl::Var(v))) => {
            assert(view_decl(Decl::Var(*v)) == DeclV::Var(view_var_decl(*v)));
            push_decls_workflow_fns(r, &v.decls, false, false)
        },
        ModuleItem::ExportDecl(Decl::Fn(f)) => push_fn_workflow_fns(r, f, true, false),
        ModuleItem::ExportDecl(Decl::Var(v)) => {
            assert(view_decl(Decl::Var(*v)) == DeclV::Var(view_var_decl(*v)));
            push_decls_workflow_fns(r, &v.decls, true, false)
        },
        ModuleItem::ExportDefaultFn(f) => push_fn_workflow_fns(r, f, true, true),
        _ => {
            assert(r.deep_view() =~= old(r).deep_view() + item_workflow_fns(view_item(*item)));
        },
    }
}

fn push_fn_workflow_fns(
    r: &mut Vec<WorkflowFnInfo>,
    f: &crate::ast::FnDecl,
    is_exported: bool,
    is_default: bool,
)
    ensures
        final(r).deep_view() == old(r).deep_view() + fn_workflow_fns(
            view_fn_decl(*f),
            is_exported,
            is_default,
        ),
{
    let mut matched = false;
    match &f.body {
        Some(b) => {
            if crate::directive::block_has_workflow_directive(b) {
                r.push(
                    WorkflowFnInfo {
                        name: f.name.clone(),
                        is_exported,
                        is_default_export: is_default,
                        is_async: f.is_async,
                    },
                );
                matched = true;
            }
        },
        None => {},
    }
    assert(r.deep_view() =~= old(r).deep_view() + fn_workflow_fns(
        view_fn_decl(*f),
        is_exported,
        is_default,
    ));
}

fn push_declarator_workflow_fns(
    r: &mut Vec<WorkflowFnInfo>,
    d: &crate::ast::VarDeclarator,
    is_exported: bool,
    is_default: bool,
)
    ensures
        final(r).deep_view() == old(r).deep_view() + declarator_workflow_fns(
            view_declarator(*d),
            is_exported,
            is_default,
        ),
{
    match (&d.name, &d.init) {
        (Pat::Ident(name), Some(init)) => {
            match extract_fn_body(&**init) {
                Some((is_async, b)) => {
                    if crate::directive::block_has_workflow_directive(b) {
                        r.push(
                            WorkflowFnInfo {
                                name: name.clone(),
                                is_exported,
                                is_default_export: is_default,
                                is_async,
                            },
                        );
                    }
                },
                None => {},
            }
        },
        _ => {},
    }
    assert(r.deep_view() =~= old(r).deep_view() + declarator_workflow_fns(
        view_declarator(*d),
        is_exported,
        is_default,
    ));
}

#[verifier::rlimit(30)]
fn push_decls_workflow_fns(
    r: &mut Vec<WorkflowFnInfo>,
    ds: &Vec<crate::ast::VarDeclarator>,
    is_exported: bool,
    is_default: bool,
)
    ensures
        final(r).deep_view() == old(r).deep_view() + decls_workflow_fns(
            view_declarators(ds@),
            is_exported,
            is_default,
        ),
{
    let ghost dsv = view_declarators(ds@);
    let ghost r0 = old(r).deep_view();
    let mut i: usize = 0;
    while i < ds.len()
        invariant
            i <= ds.len(),
            dsv == view_declarators(ds@),
            r.deep_view() == r0 + decls_workflow_fns(dsv.take(i as int), is_exported, is_default),
        decreases ds.len() - i,
    {
        push_declarator_workflow_fns(r, &ds[i], is_exported, is_default);
        proof {
            assert(dsv.take(i as int + 1).drop_last() =~= dsv.take(i as int));
            assert(dsv.take(i as int + 1).last() == dsv[i as int]);
            assert(r.deep_view() =~= r0 + decls_workflow_fns(
                dsv.take(i as int + 1),
                is_exported,
                is_default,
            ));
        }
        i = i + 1;
    }
    assert(dsv.take(ds.len() as int) =~= dsv);
}

proof fn lemma_merge_step_fns_concat(acc: Seq<StepFnInfoV>, s1: Seq<StepFnInfoV>, s2: Seq<StepFnInfoV>)
    ensures
        merge_step_fns(acc, s1 + s2) == merge_step_fns(merge_step_fns(acc, s1), s2),
    decreases s2.len(),
{
    if s2.len() == 0 {
        assert(s1 + s2 =~= s1);
    } else {
        lemma_merge_step_fns_concat(acc, s1, s2.drop_last());
        assert((s1 + s2).drop_last() =~= s1 + s2.drop_last());
        assert((s1 + s2).last() == s2.last());
    }
}

fn step_fns_contain_name(v: &Vec<StepFnInfo>, name: &String) -> (r: bool)
    ensures
        r == step_has_name(view_step_fns(v@), name@),
{
    let ghost vv = view_step_fns(v@);
    let mut i: usize = 0;
    while i < v.len()
        invariant
            i <= v.len(),
            vv == view_step_fns(v@),
            forall|j: int| 0 <= j < i ==> (#[trigger] vv[j]).name != name@,
        decreases v.len() - i,
    {
        if v[i].name == *name {
            assert(vv[i as int].name == name@);
            return true;
        }
        i = i + 1;
    }
    false
}

/// Merge one candidate step fact: the first directive for a name wins.
fn merge_one_step_fn(r: &mut Vec<StepFnInfo>, one: StepFnInfo)
    ensures
        view_step_fns(final(r)@) == merge_step_fns(
            view_step_fns(old(r)@),
            seq![view_step_fn(one)],
        ),
{
    proof {
        reveal_with_fuel(merge_step_fns, 2);
        assert(seq![view_step_fn(one)].drop_last() =~= Seq::<StepFnInfoV>::empty());
    }
    let present = step_fns_contain_name(r, &one.name);
    if !present {
        let ghost r0 = view_step_fns(r@);
        let ghost onev = view_step_fn(one);
        r.push(one);
        assert(view_step_fns(r@) =~= r0.push(onev));
    }
}

/// Merge the step facts of one top-level item into the accumulator.
fn merge_item_step_fns(r: &mut Vec<StepFnInfo>, item: &ModuleItem)
    ensures
        view_step_fns(final(r)@) == merge_step_fns(
            view_step_fns(old(r)@),
            item_step_fns(view_item(*item)),
        ),
{
    proof {
        reveal_with_fuel(view_stmt, 2);
        reveal_with_fuel(view_decl, 2);
        reveal_with_fuel(merge_step_fns, 2);
    }
    match item {
        ModuleItem::Stmt(Stmt::Decl(Decl::Fn(f))) => merge_fn_step_fns(r, f),
        ModuleItem::Stmt(Stmt::Decl(Decl::Var(v))) => {
            assert(view_decl(Decl::Var(*v)) == DeclV::Var(view_var_decl(*v)));
            merge_decls_step_fns(r, &v.decls)
        },
        ModuleItem::ExportDecl(Decl::Fn(f)) => merge_fn_step_fns(r, f),
        ModuleItem::ExportDecl(Decl::Var(v)) => {
            assert(view_decl(Decl::Var(*v)) == DeclV::Var(view_var_decl(*v)));
            merge_decls_step_fns(r, &v.decls)
        },
        ModuleItem::ExportDefaultFn(f) => merge_fn_step_fns(r, f),
        _ => {
            assert(item_step_fns(view_item(*item)) =~= Seq::<StepFnInfoV>::empty());
        },
    }
}

fn merge_fn_step_fns(r: &mut Vec<StepFnInfo>, f: &crate::ast::FnDecl)
    ensures
        view_step_fns(final(r)@) == merge_step_fns(
            view_step_fns(old(r)@),
            fn_step_fns(view_fn_decl(*f)),
        ),
{
    proof {
        reveal_with_fuel(merge_step_fns, 1);
    }
    match &f.body {
        Some(b) => {
            if crate::directive::block_has_step_directive(b) {
                let one = StepFnInfo { name: f.name.clone(), body: crate::ast::clone_block(b) };
                assert(view_step_fn(one) == (StepFnInfoV { name: f.name@, body: view_block(*b) }));
                merge_one_step_fn(r, one);
                assert(fn_step_fns(view_fn_decl(*f)) =~= seq![
                    StepFnInfoV { name: f.name@, body: view_block(*b) },
                ]);
            } else {
                assert(fn_step_fns(view_fn_decl(*f)) =~= Seq::<StepFnInfoV>::empty());
            }
        },
        None => {
            assert(fn_step_fns(view_fn_decl(*f)) =~= Seq::<StepFnInfoV>::empty());
        },
    }
}

fn merge_declarator_step_fns(r: &mut Vec<StepFnInfo>, d: &crate::ast::VarDeclarator)
    ensures
        view_step_fns(final(r)@) == merge_step_fns(
            view_step_fns(old(r)@),
            declarator_step_fns(view_declarator(*d)),
        ),
{
    proof {
        reveal_with_fuel(merge_step_fns, 1);
    }
    match (&d.name, &d.init) {
        (Pat::Ident(name), Some(init)) => {
            match extract_fn_body(&**init) {
                Some((is_async, b)) => {
                    if crate::directive::block_has_step_directive(b) {
                        let one = StepFnInfo { name: name.clone(), body: crate::ast::clone_block(b) };
                        assert(view_step_fn(one) == (StepFnInfoV { name: name@, body: view_block(*b) }));
                        merge_one_step_fn(r, one);
                        assert(declarator_step_fns(view_declarator(*d)) =~= seq![
                            StepFnInfoV { name: name@, body: view_block(*b) },
                        ]);
                    } else {
                        assert(declarator_step_fns(view_declarator(*d)) =~= Seq::<StepFnInfoV>::empty());
                    }
                },
                None => {
                    assert(declarator_step_fns(view_declarator(*d)) =~= Seq::<StepFnInfoV>::empty());
                },
            }
        },
        _ => {
            assert(declarator_step_fns(view_declarator(*d)) =~= Seq::<StepFnInfoV>::empty());
        },
    }
}

#[verifier::rlimit(30)]
fn merge_decls_step_fns(r: &mut Vec<StepFnInfo>, ds: &Vec<crate::ast::VarDeclarator>)
    ensures
        view_step_fns(final(r)@) == merge_step_fns(
            view_step_fns(old(r)@),
            decls_step_fns(view_declarators(ds@)),
        ),
{
    let ghost dsv = view_declarators(ds@);
    let ghost r0 = view_step_fns(old(r)@);
    let mut i: usize = 0;
    proof {
        reveal_with_fuel(merge_step_fns, 1);
        reveal_with_fuel(decls_step_fns, 1);
    }
    while i < ds.len()
        invariant
            i <= ds.len(),
            dsv == view_declarators(ds@),
            view_step_fns(r@) == merge_step_fns(r0, decls_step_fns(dsv.take(i as int))),
        decreases ds.len() - i,
    {
        merge_declarator_step_fns(r, &ds[i]);
        proof {
            assert(dsv.take(i as int + 1).drop_last() =~= dsv.take(i as int));
            assert(dsv.take(i as int + 1).last() == dsv[i as int]);
            lemma_merge_step_fns_concat(
                r0,
                decls_step_fns(dsv.take(i as int)),
                declarator_step_fns(dsv[i as int]),
            );
            assert(decls_step_fns(dsv.take(i as int)) + declarator_step_fns(dsv[i as int])
                =~= decls_step_fns(dsv.take(i as int + 1)));
        }
        i = i + 1;
    }
    assert(dsv.take(ds.len() as int) =~= dsv);
}

fn items_mention(items: &Vec<ModuleItem>, name: &str) -> (r: bool)
    ensures
        r == items_mention_call(view_items(items@), name@),
{
    let ghost itemsv = view_items(items@);
    let mut i: usize = 0;
    while i < items.len()
        invariant
            i <= items.len(),
            itemsv == view_items(items@),
            forall|j: int| 0 <= j < i ==> !item_mentions_call(#[trigger] itemsv[j], name@),
        decreases items.len() - i,
    {
        if item_mentions(&items[i], name) {
            assert(item_mentions_call(itemsv[i as int], name@));
            return true;
        }
        i = i + 1;
    }
    false
}

// ── Step names, imports, the module directive ───────────────────────

fn push_name_if_step(r: &mut Vec<String>, name: &String, b: &BlockStmt)
    ensures
        final(r).deep_view() == old(r).deep_view() + step_names_of(
            if stmts_have_directive(view_block(*b), "use step"@) {
                seq![StepFnInfoV { name: name@, body: view_block(*b) }]
            } else {
                Seq::empty()
            },
        ),
{
    if crate::directive::block_has_step_directive(b) {
        r.push(name.clone());
        assert(final(r).deep_view() =~= old(r).deep_view() + step_names_of(
            seq![StepFnInfoV { name: name@, body: view_block(*b) }],
        ));
    } else {
        assert(final(r).deep_view() =~= old(r).deep_view() + step_names_of(Seq::empty()));
    }
}

fn push_item_step_names(r: &mut Vec<String>, item: &ModuleItem)
    ensures
        final(r).deep_view() == old(r).deep_view() + step_names_of(item_step_fns(view_item(*item))),
{
    proof {
        reveal_with_fuel(view_stmt, 2);
        reveal_with_fuel(view_decl, 2);
    }
    match item {
        ModuleItem::Stmt(Stmt::Decl(Decl::Fn(f))) => push_fn_step_names(r, f),
        ModuleItem::Stmt(Stmt::Decl(Decl::Var(v))) => {
            assert(view_decl(Decl::Var(*v)) == DeclV::Var(view_var_decl(*v)));
            push_decls_step_names(r, &v.decls)
        },
        ModuleItem::ExportDecl(Decl::Fn(f)) => push_fn_step_names(r, f),
        ModuleItem::ExportDecl(Decl::Var(v)) => {
            assert(view_decl(Decl::Var(*v)) == DeclV::Var(view_var_decl(*v)));
            push_decls_step_names(r, &v.decls)
        },
        ModuleItem::ExportDefaultFn(f) => push_fn_step_names(r, f),
        _ => {
            assert(final(r).deep_view() =~= old(r).deep_view() + step_names_of(
                item_step_fns(view_item(*item)),
            ));
        },
    }
}

fn push_fn_step_names(r: &mut Vec<String>, f: &crate::ast::FnDecl)
    ensures
        final(r).deep_view() == old(r).deep_view() + step_names_of(fn_step_fns(view_fn_decl(*f))),
{
    match &f.body {
        Some(b) => {
            push_name_if_step(r, &f.name, b);
            assert(final(r).deep_view() =~= old(r).deep_view() + step_names_of(
                fn_step_fns(view_fn_decl(*f)),
            ));
        },
        None => {
            assert(final(r).deep_view() =~= old(r).deep_view() + step_names_of(
                fn_step_fns(view_fn_decl(*f)),
            ));
        },
    }
}

fn push_declarator_step_names(r: &mut Vec<String>, d: &crate::ast::VarDeclarator)
    ensures
        final(r).deep_view() == old(r).deep_view() + step_names_of(
            declarator_step_fns(view_declarator(*d)),
        ),
{
    match (&d.name, &d.init) {
        (Pat::Ident(name), Some(init)) => {
            match extract_fn_body(&**init) {
                Some((is_async, b)) => {
                    push_name_if_step(r, name, b);
                    assert(final(r).deep_view() =~= old(r).deep_view() + step_names_of(
                        declarator_step_fns(view_declarator(*d)),
                    ));
                },
                None => {
                    assert(final(r).deep_view() =~= old(r).deep_view() + step_names_of(
                        declarator_step_fns(view_declarator(*d)),
                    ));
                },
            }
        },
        _ => {
            assert(final(r).deep_view() =~= old(r).deep_view() + step_names_of(
                declarator_step_fns(view_declarator(*d)),
            ));
        },
    }
}

#[verifier::rlimit(30)]
fn push_decls_step_names(r: &mut Vec<String>, ds: &Vec<crate::ast::VarDeclarator>)
    ensures
        final(r).deep_view() == old(r).deep_view() + step_names_of(
            decls_step_fns(view_declarators(ds@)),
        ),
{
    let ghost dsv = view_declarators(ds@);
    let ghost r0 = old(r).deep_view();
    let mut i: usize = 0;
    while i < ds.len()
        invariant
            i <= ds.len(),
            dsv == view_declarators(ds@),
            r.deep_view() == r0 + step_names_of(decls_step_fns(dsv.take(i as int))),
        decreases ds.len() - i,
    {
        push_declarator_step_names(r, &ds[i]);
        proof {
            assert(dsv.take(i as int + 1).drop_last() =~= dsv.take(i as int));
            assert(dsv.take(i as int + 1).last() == dsv[i as int]);
            assert(step_names_of(decls_step_fns(dsv.take(i as int))) + step_names_of(
                declarator_step_fns(dsv[i as int]),
            ) =~= step_names_of(decls_step_fns(dsv.take(i as int + 1))));
        }
        i = i + 1;
    }
    assert(dsv.take(ds.len() as int) =~= dsv);
}

fn specifier_import_exec(s: &crate::ast::ImportSpecifier, src: &String) -> (r: WorkflowImportInfo)
    ensures
        r.deep_view() == specifier_import(s.deep_view(), src@),
{
    match s {
        crate::ast::ImportSpecifier::Named { local, imported } => {
            let imported_name = match imported {
                Some(name) => name.clone(),
                None => local.clone(),
            };
            WorkflowImportInfo {
                local_name: local.clone(),
                imported_name,
                source: src.clone(),
            }
        },
        crate::ast::ImportSpecifier::Default { local } => WorkflowImportInfo {
            local_name: local.clone(),
            imported_name: "default".to_owned(),
            source: src.clone(),
        },
        crate::ast::ImportSpecifier::Namespace { local } => WorkflowImportInfo {
            local_name: local.clone(),
            imported_name: "*".to_owned(),
            source: src.clone(),
        },
    }
}

fn push_item_imports(r: &mut Vec<WorkflowImportInfo>, item: &ModuleItem)
    ensures
        final(r).deep_view() == old(r).deep_view() + item_imports(view_item(*item)),
{
    match item {
        ModuleItem::Import(d) => {
            if is_relative_path(&d.src) {
                let ghost specsv = d.specifiers.deep_view();
                let ghost r0 = old(r).deep_view();
                let ghost n0 = old(r).len();
                let mut i: usize = 0;
                while i < d.specifiers.len()
                    invariant
                        i <= d.specifiers.len(),
                        specsv == d.specifiers.deep_view(),
                        r.len() == n0 + i,
                        forall|j: int| 0 <= j < n0 ==> r.deep_view()[j] == r0[j],
                        forall|j: int|
                            0 <= j < i ==> r.deep_view()[n0 + j] == specifier_import(
                                #[trigger] specsv[j],
                                d.src@,
                            ),
                    decreases d.specifiers.len() - i,
                {
                    let info = specifier_import_exec(&d.specifiers[i], &d.src);
                    assert(info.deep_view() == specifier_import(specsv[i as int], d.src@));
                    r.push(info);
                    i = i + 1;
                }
                assert(final(r).deep_view() =~= old(r).deep_view() + item_imports(view_item(*item)));
            } else {
                assert(final(r).deep_view() =~= old(r).deep_view() + item_imports(
                    view_item(*item),
                ));
            }
        },
        _ => {
            assert(final(r).deep_view() =~= old(r).deep_view() + item_imports(view_item(*item)));
        },
    }
}

fn module_has_directive(items: &Vec<ModuleItem>) -> (r: bool)
    ensures
        r == has_module_directive(view_items(items@)),
{
    let ghost itemsv = view_items(items@);
    let mut i: usize = 0;
    while i < items.len()
        invariant
            i <= items.len(),
            itemsv == view_items(items@),
            forall|j: int| 0 <= j < i ==> !item_is_module_directive(#[trigger] itemsv[j]),
        decreases items.len() - i,
    {
        let found = match &items[i] {
            ModuleItem::Stmt(s) => is_use_workflow_directive(s),
            _ => false,
        };
        if found {
            assert(item_is_module_directive(itemsv[i as int]));
            return true;
        }
        i = i + 1;
    }
    false
}

// ── The collector pass ──────────────────────────────────────────────

/// Pass 1: the read-only scan that fills the fact sheet.
#[derive(Debug)]
pub struct Collector {
    pub config: PluginConfig,
    pub info: CollectedInfo,
}

/// The fact sheet before any collection.
pub open spec fn empty_info() -> CollectedInfoV {
    CollectedInfoV {
        workflow_fns: Seq::empty(),
        step_fns: Seq::empty(),
        workflow_imports: Seq::empty(),
        has_invoke: false,
        has_sleep: false,
        has_wait_for_callback: false,
        step_fn_names: Seq::empty(),
        has_module_workflow_directive: false,
    }
}

impl Collector {
    pub fn new(config: &PluginConfig) -> (c: Collector)
        ensures
            view_info(c.info) == empty_info(),
            crate::config::view_config(c.config) == crate::config::view_config(*config),
    {
        let c = Collector {
            config: crate::config::clone_config(config),
            info: CollectedInfo {
                workflow_fns: Vec::new(),
                step_fns: Vec::new(),
                workflow_imports: Vec::new(),
                has_invoke: false,
                has_sleep: false,
                has_wait_for_callback: false,
                step_fn_names: Vec::new(),
                has_module_workflow_directive: false,
            },
        };
        assert(view_info(c.info) =~~= empty_info());
        c
    }

    /// Run the single traversal over the module's top-level item sequence.
    pub fn visit_module_items(&mut self, items: &Vec<ModuleItem>)
        ensures
            view_info(final(self).info) == collect_items(view_items(items@)),
            crate::config::view_config(final(self).config) == crate::config::view_config(
                old(self).config,
            ),
    {
        self.info = collect_info(items);
    }

    /// Collect over a whole module.
    pub fn visit_module(&mut self, m: &Module)
        ensures
            view_info(final(self).info) == collect_module(crate::ast::view_module(*m)),
            crate::config::view_config(final(self).config) == crate::config::view_config(
                old(self).config,
            ),
    {
        self.visit_module_items(&m.body);
    }
}

/// Build the whole fact sheet for an item sequence.
pub fn collect_info(items: &Vec<ModuleItem>) -> (info: CollectedInfo)
    ensures
        view_info(info) == collect_items(view_items(items@)),
{
    let ghost itemsv = view_items(items@);
    let mut workflow_fns: Vec<WorkflowFnInfo> = Vec::new();
    let mut step_fns: Vec<StepFnInfo> = Vec::new();
    let mut workflow_imports: Vec<WorkflowImportInfo> = Vec::new();
    let mut step_fn_names: Vec<String> = Vec::new();

    assert(workflow_fns.deep_view() =~= Seq::<WorkflowFnInfoV>::empty());
    assert(view_step_fns(step_fns@) =~= Seq::<StepFnInfoV>::empty());
    assert(workflow_imports.deep_view() =~= Seq::<WorkflowImportInfoV>::empty());
    assert(step_fn_names.deep_view() =~= Seq::<Seq<char>>::empty());

    let mut i: usize = 0;
    while i < items.len()
        invariant
            i <= items.len(),
            itemsv == view_items(items@),
            workflow_fns.deep_view() == collect_workflow_fns(itemsv.take(i as int)),
            view_step_fns(step_fns@) == collect_step_fns(itemsv.take(i as int)),
            workflow_imports.deep_view() == collect_imports(itemsv.take(i as int)),
            step_fn_names.deep_view() == collect_step_names(itemsv.take(i as int)),
        decreases items.len() - i,
    {
        push_item_workflow_fns(&mut workflow_fns, &items[i]);
        merge_item_step_fns(&mut step_fns, &items[i]);
        push_item_imports(&mut workflow_imports, &items[i]);
        push_item_step_names(&mut step_fn_names, &items[i]);
        proof {
            assert(itemsv.take(i as int + 1).drop_last() =~= itemsv.take(i as int));
            assert(itemsv.take(i as int + 1).last() == itemsv[i as int]);
        }
        i = i + 1;
    }
    assert(itemsv.take(items.len() as int) =~= itemsv);

    let has_invoke = items_mention(items, "invoke");
    let has_sleep = items_mention(items, "sleep");
    let has_wait_for_callback = items_mention(items, "waitForCallback");
    let has_module_workflow_directive = module_has_directive(items);

    let info = CollectedInfo {
        workflow_fns,
        step_fns,
        workflow_imports,
        has_invoke,
        has_sleep,
        has_wait_for_callback,
        step_fn_names,
        has_module_workflow_directive,
    };
    assert(view_info(info) =~~= collect_items(itemsv));
    info
}

} // verus!
