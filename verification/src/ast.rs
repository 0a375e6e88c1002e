//! The tree model that the pass analyses and rewrites.
//!
//! Each node category is a closed tagged union, so every rewrite rule is an
//! exhaustive match: statement kinds and expression kinds that the rewrite
//! does not recurse into are explicit arms, not silent fallthroughs.
//!
//! Every executable node type has a mathematical mirror (the `...V` types),
//! built from `Seq` and `Seq<char>`, and a view function mapping the node to
//! its mirror. All contracts of the pass speak about these mirrors.

use vstd::prelude::*;

verus! {

broadcast use vstd::std_specs::vec::group_vec_axioms;

// ── Executable node types ───────────────────────────────────────────

/// A parsed module: its top-level item sequence.
#[derive(Debug)]
pub struct Module {
    pub body: Vec<ModuleItem>,
}

/// One top-level item of a module.
#[derive(Debug)]
pub enum ModuleItem {
    /// `import ... from "src"`
    Import(ImportDecl),
    /// `export <decl>`
    ExportDecl(Decl),
    /// `export default function name(...) { ... }`
    ExportDefaultFn(FnDecl),
    /// Any plain statement.
    Stmt(Stmt),
}

/// `import <specifiers> from "src"`
#[derive(Debug)]
pub struct ImportDecl {
    pub specifiers: Vec<ImportSpecifier>,
    pub src: String,
}

/// One binding introduced by an import declaration.
#[derive(Debug)]
pub enum ImportSpecifier {
    /// `import { imported as local }`; `imported` is absent when the two
    /// names coincide.
    Named { local: String, imported: Option<String> },
    /// `import local from ...`
    Default { local: String },
    /// `import * as local from ...`
    Namespace { local: String },
}

/// A declaration that can stand alone or under an `export`.
#[derive(Debug)]
pub enum Decl {
    Fn(FnDecl),
    Var(VarDecl),
}

/// `function name(params) { body }`; the body is absent for a bare
/// declaration without a block.
#[derive(Debug)]
pub struct FnDecl {
    pub name: String,
    pub is_async: bool,
    pub params: Vec<String>,
    pub body: Option<BlockStmt>,
}

/// A brace-delimited statement block.
#[derive(Debug)]
pub struct BlockStmt {
    pub stmts: Vec<Stmt>,
}

/// The keyword of a variable declaration.
#[derive(Debug, Clone, Copy, PartialEq, Eq, Structural)]
pub enum VarDeclKind {
    Var,
    Let,
    Const,
}

/// `var/let/const <declarators>`
#[derive(Debug)]
pub struct VarDecl {
    pub kind: VarDeclKind,
    pub decls: Vec<VarDeclarator>,
}

/// One `name = init` binding of a variable declaration.
#[derive(Debug)]
pub struct VarDeclarator {
    pub name: Pat,
    pub init: Option<Box<Expr>>,
}

/// A binding pattern.
#[derive(Debug)]
pub enum Pat {
    /// A plain identifier binding.
    Ident(String),
    /// An object destructuring pattern; only the bound names are kept.
    Object(Vec<String>),
}

/// A statement.
#[derive(Debug)]
pub enum Stmt {
    /// An expression statement.
    Expr(Box<Expr>),
    /// A declaration statement.
    Decl(Decl),
    /// `return <expr?>`
    Return(Option<Box<Expr>>),
    /// `if (cond) cons else alt`
    If { cond: Box<Expr>, cons: Box<Stmt>, alt: Option<Box<Stmt>> },
    /// A nested block.
    Block(BlockStmt),
    /// `while (cond) body`
    While { cond: Box<Expr>, body: Box<Stmt> },
    /// `throw <expr>`
    Throw(Box<Expr>),
    /// `;`
    Empty,
}

/// A binary operator.
#[derive(Debug, Clone, Copy, PartialEq, Eq, Structural)]
pub enum BinOp {
    Add,
    Sub,
    EqEq,
    NotEq,
    Lt,
    Gt,
}

/// A unary operator.
#[derive(Debug, Clone, Copy, PartialEq, Eq, Structural)]
pub enum UnaryOp {
    Not,
    Neg,
    TypeOf,
}

/// An expression.
#[derive(Debug)]
pub enum Expr {
    /// An identifier reference.
    Ident(String),
    /// A string literal.
    Str(String),
    /// A boolean literal.
    Bool(bool),
    /// An unsigned integer literal.
    Num(u64),
    /// `[elems]`
    Array(Vec<ExprOrSpread>),
    /// `{ props }`
    Object(Vec<Prop>),
    /// `callee(args)`
    Call { callee: Box<Expr>, args: Vec<ExprOrSpread> },
    /// `new callee(args)`
    New { callee: Box<Expr>, args: Vec<ExprOrSpread> },
    /// `obj.prop`
    Member { obj: Box<Expr>, prop: String },
    /// `await arg`
    Await(Box<Expr>),
    /// `target = value`
    Assign { target: Box<Expr>, value: Box<Expr> },
    /// `(params) => body`, possibly `async`
    Arrow { params: Vec<String>, body: ArrowBody, is_async: bool },
    /// `function name?(params) { body }` in expression position.
    FnExpr { name: Option<String>, is_async: bool, params: Vec<String>, body: Option<BlockStmt> },
    /// `left op right`
    Bin { op: BinOp, left: Box<Expr>, right: Box<Expr> },
    /// `op arg`
    Unary { op: UnaryOp, arg: Box<Expr> },
}

/// The body of an arrow function: a block or a bare expression.
#[derive(Debug)]
pub enum ArrowBody {
    Block(BlockStmt),
    Expr(Box<Expr>),
}

/// One argument of a call: the expression and whether it is spread (`...e`).
#[derive(Debug)]
pub struct ExprOrSpread {
    pub spread: bool,
    pub expr: Expr,
}

/// One `key: value` property of an object literal.
#[derive(Debug)]
pub struct Prop {
    pub key: String,
    pub value: Expr,
}

// ── Mirror types ────────────────────────────────────────────────────

#[verifier::ext_equal]
pub struct ModuleV {
    pub body: Seq<ModuleItemV>,
}

#[verifier::ext_equal]
pub enum ModuleItemV {
    Import(ImportDeclV),
    ExportDecl(DeclV),
    ExportDefaultFn(FnDeclV),
    Stmt(StmtV),
}

#[verifier::ext_equal]
pub struct ImportDeclV {
    pub specifiers: Seq<ImportSpecifierV>,
    pub src: Seq<char>,
}

#[verifier::ext_equal]
pub enum ImportSpecifierV {
    Named { local: Seq<char>, imported: Option<Seq<char>> },
    Default { local: Seq<char> },
    Namespace { local: Seq<char> },
}

#[verifier::ext_equal]
pub enum DeclV {
    Fn(FnDeclV),
    Var(VarDeclV),
}

#[verifier::ext_equal]
pub struct FnDeclV {
    pub name: Seq<char>,
    pub is_async: bool,
    pub params: Seq<Seq<char>>,
    pub body: Option<Seq<StmtV>>,
}

#[verifier::ext_equal]
pub struct VarDeclV {
    pub kind: VarDeclKind,
    pub decls: Seq<VarDeclaratorV>,
}

#[verifier::ext_equal]
pub struct VarDeclaratorV {
    pub name: PatV,
    pub init: Option<Box<ExprV>>,
}

#[verifier::ext_equal]
pub enum PatV {
    Ident(Seq<char>),
    Object(Seq<Seq<char>>),
}

#[verifier::ext_equal]
pub enum StmtV {
    Expr(Box<ExprV>),
    Decl(DeclV),
    Return(Option<Box<ExprV>>),
    If { cond: Box<ExprV>, cons: Box<StmtV>, alt: Option<Box<StmtV>> },
    Block(Seq<StmtV>),
    While { cond: Box<ExprV>, body: Box<StmtV> },
    Throw(Box<ExprV>),
    Empty,
}

#[verifier::ext_equal]
pub enum ExprV {
    Ident(Seq<char>),
    Str(Seq<char>),
    Bool(bool),
    Num(u64),
    Array(Seq<ExprOrSpreadV>),
    Object(Seq<PropV>),
    Call { callee: Box<ExprV>, args: Seq<ExprOrSpreadV> },
    New { callee: Box<ExprV>, args: Seq<ExprOrSpreadV> },
    Member { obj: Box<ExprV>, prop: Seq<char> },
    Await(Box<ExprV>),
    Assign { target: Box<ExprV>, value: Box<ExprV> },
    Arrow { params: Seq<Seq<char>>, body: ArrowBodyV, is_async: bool },
    FnExpr { name: Option<Seq<char>>, is_async: bool, params: Seq<Seq<char>>, body: Option<Seq<StmtV>> },
    Bin { op: BinOp, left: Box<ExprV>, right: Box<ExprV> },
    Unary { op: UnaryOp, arg: Box<ExprV> },
}

#[verifier::ext_equal]
pub enum ArrowBodyV {
    Block(Seq<StmtV>),
    Expr(Box<ExprV>),
}

#[verifier::ext_equal]
pub struct ExprOrSpreadV {
    pub spread: bool,
    pub expr: ExprV,
}

#[verifier::ext_equal]
pub struct PropV {
    pub key: Seq<char>,
    pub value: ExprV,
}

// ── View functions ──────────────────────────────────────────────────

pub open spec fn view_module(m: Module) -> ModuleV {
    ModuleV { body: view_items(m.body@) }
}

pub open spec fn view_items(items: Seq<ModuleItem>) -> Seq<ModuleItemV>
    decreases items,
{
    Seq::new(items.len(), |i: int| if 0 <= i < items.len() { view_item(items[i]) } else { arbitrary() })
}

pub open spec fn view_item(item: ModuleItem) -> ModuleItemV
    decreases item,
{
    match item {
        ModuleItem::Import(d) => ModuleItemV::Import(view_import(d)),
        ModuleItem::ExportDecl(d) => ModuleItemV::ExportDecl(view_decl(d)),
        ModuleItem::ExportDefaultFn(f) => ModuleItemV::ExportDefaultFn(view_fn_decl(f)),
        ModuleItem::Stmt(s) => ModuleItemV::Stmt(view_stmt(s)),
    }
}

pub open spec fn view_import(d: ImportDecl) -> ImportDeclV {
    ImportDeclV { specifiers: d.specifiers.deep_view(), src: d.src@ }
}

impl DeepView for ImportSpecifier {
    type V = ImportSpecifierV;

    open spec fn deep_view(&self) -> ImportSpecifierV {
        match self {
            ImportSpecifier::Named { local, imported } => ImportSpecifierV::Named {
                local: local@,
                imported: imported.deep_view(),
            },
            ImportSpecifier::Default { local } => ImportSpecifierV::Default { local: local@ },
            ImportSpecifier::Namespace { local } => ImportSpecifierV::Namespace { local: local@ },
        }
    }
}

pub open spec fn view_decl(d: Decl) -> DeclV
    decreases d,
{
    match d {
        Decl::Fn(f) => DeclV::Fn(view_fn_decl(f)),
        Decl::Var(v) => DeclV::Var(view_var_decl(v)),
    }
}

pub open spec fn view_fn_decl(f: FnDecl) -> FnDeclV
    decreases f,
{
    FnDeclV {
        name: f.name@,
        is_async: f.is_async,
        params: f.params.deep_view(),
        body: match f.body {
            Some(b) => Some(view_block(b)),
            None => None,
        },
    }
}

pub open spec fn view_block(b: BlockStmt) -> Seq<StmtV>
    decreases b,
{
    view_stmts(b.stmts@)
}

pub open spec fn view_stmts(ss: Seq<Stmt>) -> Seq<StmtV>
    decreases ss,
{
    Seq::new(ss.len(), |i: int| if 0 <= i < ss.len() { view_stmt(ss[i]) } else { arbitrary() })
}

pub open spec fn view_var_decl(v: VarDecl) -> VarDeclV
    decreases v,
{
    VarDeclV { kind: v.kind, decls: view_declarators(v.decls@) }
}

pub open spec fn view_declarators(ds: Seq<VarDeclarator>) -> Seq<VarDeclaratorV>
    decreases ds,
{
    Seq::new(ds.len(), |i: int| if 0 <= i < ds.len() { view_declarator(ds[i]) } else { arbitrary() })
}

pub open spec fn view_declarator(d: VarDeclarator) -> VarDeclaratorV
    decreases d,
{
    VarDeclaratorV {
        name: view_pat(d.name),
        init: match d.init {
            Some(e) => Some(Box::new(view_expr(*e))),
            None => None,
        },
    }
}

pub open spec fn view_pat(p: Pat) -> PatV {
    match p {
        Pat::Ident(s) => PatV::Ident(s@),
        Pat::Object(names) => PatV::Object(names.deep_view()),
    }
}

pub open spec fn view_stmt(s: Stmt) -> StmtV
    decreases s,
{
    match s {
        Stmt::Expr(e) => StmtV::Expr(Box::new(view_expr(*e))),
        Stmt::Decl(d) => StmtV::Decl(view_decl(d)),
        Stmt::Return(arg) => StmtV::Return(
            match arg {
                Some(e) => Some(Box::new(view_expr(*e))),
                None => None,
            },
        ),
        Stmt::If { cond, cons, alt } => StmtV::If {
            cond: Box::new(view_expr(*cond)),
            cons: Box::new(view_stmt(*cons)),
            alt: match alt {
                Some(s2) => Some(Box::new(view_stmt(*s2))),
                None => None,
            },
        },
        Stmt::Block(b) => StmtV::Block(view_block(b)),
        Stmt::While { cond, body } => StmtV::While {
            cond: Box::new(view_expr(*cond)),
            body: Box::new(view_stmt(*body)),
        },
        Stmt::Throw(e) => StmtV::Throw(Box::new(view_expr(*e))),
        Stmt::Empty => StmtV::Empty,
    }
}

pub open spec fn view_expr(e: Expr) -> ExprV
    decreases e,
{
    match e {
        Expr::Ident(s) => ExprV::Ident(s@),
        Expr::Str(s) => ExprV::Str(s@),
        Expr::Bool(b) => ExprV::Bool(b),
        Expr::Num(n) => ExprV::Num(n),
        Expr::Array(elems) => ExprV::Array(view_args(elems@)),
        Expr::Object(props) => ExprV::Object(view_props(props@)),
        Expr::Call { callee, args } => ExprV::Call {
            callee: Box::new(view_expr(*callee)),
            args: view_args(args@),
        },
        Expr::New { callee, args } => ExprV::New {
            callee: Box::new(view_expr(*callee)),
            args: view_args(args@),
        },
        Expr::Member { obj, prop } => ExprV::Member {
            obj: Box::new(view_expr(*obj)),
            prop: prop@,
        },
        Expr::Await(arg) => ExprV::Await(Box::new(view_expr(*arg))),
        Expr::Assign { target, value } => ExprV::Assign {
            target: Box::new(view_expr(*target)),
            value: Box::new(view_expr(*value)),
        },
        Expr::Arrow { params, body, is_async } => ExprV::Arrow {
            params: params.deep_view(),
            body: view_arrow_body(body),
            is_async: is_async,
        },
        Expr::FnExpr { name, is_async, params, body } => ExprV::FnExpr {
            name: name.deep_view(),
            is_async: is_async,
            params: params.deep_view(),
            body: match body {
                Some(b) => Some(view_block(b)),
                None => None,
            },
        },
        Expr::Bin { op, left, right } => ExprV::Bin {
            op: op,
            left: Box::new(view_expr(*left)),
            right: Box::new(view_expr(*right)),
        },
        Expr::Unary { op, arg } => ExprV::Unary { op: op, arg: Box::new(view_expr(*arg)) },
    }
}

pub open spec fn view_arrow_body(b: ArrowBody) -> ArrowBodyV
    decreases b,
{
    match b {
        ArrowBody::Block(block) => ArrowBodyV::Block(view_block(block)),
        ArrowBody::Expr(e) => ArrowBodyV::Expr(Box::new(view_expr(*e))),
    }
}

pub open spec fn view_args(args: Seq<ExprOrSpread>) -> Seq<ExprOrSpreadV>
    decreases args,
{
    Seq::new(args.len(), |i: int| if 0 <= i < args.len() { view_arg(args[i]) } else { arbitrary() })
}

pub open spec fn view_arg(a: ExprOrSpread) -> ExprOrSpreadV
    decreases a,
{
    ExprOrSpreadV { spread: a.spread, expr: view_expr(a.expr) }
}

pub open spec fn view_props(ps: Seq<Prop>) -> Seq<PropV>
    decreases ps,
{
    Seq::new(ps.len(), |i: int| if 0 <= i < ps.len() { view_prop(ps[i]) } else { arbitrary() })
}

pub open spec fn view_prop(p: Prop) -> PropV
    decreases p,
{
    PropV { key: p.key@, value: view_expr(p.value) }
}

// ── Deep clones ─────────────────────────────────────────────────────
//
// Step bodies are captured by value and spliced independently at every
// call site, and kept items are rebuilt unchanged, so the pass needs
// clones whose views provably equal the original's view.

pub fn clone_strings(v: &Vec<String>) -> (r: Vec<String>)
    ensures
        r.deep_view() == v.deep_view(),
{
    let mut out: Vec<String> = Vec::new();
    let mut i: usize = 0;
    while i < v.len()
        invariant
            i <= v.len(),
            out.len() == i,
            forall|j: int| 0 <= j < i ==> out.deep_view()[j] == v.deep_view()[j],
        decreases v.len() - i,
    {
        out.push(v[i].clone());
        i = i + 1;
    }
    assert(out.deep_view() =~~= v.deep_view());
    out
}

pub fn clone_opt_string(v: &Option<String>) -> (r: Option<String>)
    ensures
        r.deep_view() == v.deep_view(),
{
    match v {
        Some(s) => Some(s.clone()),
        None => None,
    }
}

pub fn clone_item(item: &ModuleItem) -> (r: ModuleItem)
    ensures
        view_item(r) == view_item(*item),
    decreases item,
{
    match item {
        ModuleItem::Import(d) => ModuleItem::Import(clone_import(d)),
        ModuleItem::ExportDecl(d) => ModuleItem::ExportDecl(clone_decl(d)),
        ModuleItem::ExportDefaultFn(f) => ModuleItem::ExportDefaultFn(clone_fn_decl(f)),
        ModuleItem::Stmt(s) => ModuleItem::Stmt(clone_stmt(s)),
    }
}

pub fn clone_import(d: &ImportDecl) -> (r: ImportDecl)
    ensures
        view_import(r) == view_import(*d),
{
    let mut specs: Vec<ImportSpecifier> = Vec::new();
    let mut i: usize = 0;
    while i < d.specifiers.len()
        invariant
            i <= d.specifiers.len(),
            specs.len() == i,
            forall|j: int| 0 <= j < i ==> specs@[j].deep_view() == d.specifiers@[j].deep_view(),
        decreases d.specifiers.len() - i,
    {
        specs.push(clone_specifier(&d.specifiers[i]));
        i = i + 1;
    }
    assert(specs.deep_view() =~~= d.specifiers.deep_view());
    let r = ImportDecl { specifiers: specs, src: d.src.clone() };
    assert(view_import(r) =~~= view_import(*d));
    r
}

pub fn clone_specifier(s: &ImportSpecifier) -> (r: ImportSpecifier)
    ensures
        r.deep_view() == s.deep_view(),
{
    match s {
        ImportSpecifier::Named { local, imported } => ImportSpecifier::Named {
            local: local.clone(),
            imported: clone_opt_string(imported),
        },
        ImportSpecifier::Default { local } => ImportSpecifier::Default { local: local.clone() },
        ImportSpecifier::Namespace { local } => ImportSpecifier::Namespace { local: local.clone() },
    }
}

pub fn clone_decl(d: &Decl) -> (r: Decl)
    ensures
        view_decl(r) == view_decl(*d),
    decreases d,
{
    match d {
        Decl::Fn(f) => Decl::Fn(clone_fn_decl(f)),
        Decl::Var(v) => Decl::Var(clone_var_decl(v)),
    }
}

pub fn clone_fn_decl(f: &FnDecl) -> (r: FnDecl)
    ensures
        view_fn_decl(r) == view_fn_decl(*f),
    decreases f,
{
    let r = FnDecl {
        name: f.name.clone(),
        is_async: f.is_async,
        params: clone_strings(&f.params),
        body: match &f.body {
            Some(b) => Some(clone_block(b)),
            None => None,
        },
    };
    assert(view_fn_decl(r) =~~= view_fn_decl(*f));
    r
}

pub fn clone_block(b: &BlockStmt) -> (r: BlockStmt)
    ensures
        view_block(r) == view_block(*b),
    decreases b,
{
    BlockStmt { stmts: clone_stmts(&b.stmts) }
}

pub fn clone_stmts(ss: &Vec<Stmt>) -> (r: Vec<Stmt>)
    ensures
        view_stmts(r@) == view_stmts(ss@),
    decreases ss,
{
    let mut out: Vec<Stmt> = Vec::new();
    let mut i: usize = 0;
    while i < ss.len()
        invariant
            i <= ss.len(),
            out.len() == i,
            forall|j: int| 0 <= j < i ==> view_stmt(out[j]) == view_stmt(ss[j]),
        decreases ss.len() - i,
    {
        out.push(clone_stmt(&ss[i]));
        i = i + 1;
    }
    assert(view_stmts(out@) =~~= view_stmts(ss@));
    out
}

pub fn clone_var_decl(v: &VarDecl) -> (r: VarDecl)
    ensures
        view_var_decl(r) == view_var_decl(*v),
    decreases v,
{
    let r = VarDecl { kind: v.kind, decls: clone_declarators(&v.decls) };
    assert(view_var_decl(r) =~~= view_var_decl(*v));
    r
}

pub fn clone_declarators(ds: &Vec<VarDeclarator>) -> (r: Vec<VarDeclarator>)
    ensures
        view_declarators(r@) == view_declarators(ds@),
    decreases ds,
{
    let mut out: Vec<VarDeclarator> = Vec::new();
    let mut i: usize = 0;
    while i < ds.len()
        invariant
            i <= ds.len(),
            out.len() == i,
            forall|j: int| 0 <= j < i ==> view_declarator(out[j]) == view_declarator(ds[j]),
        decreases ds.len() - i,
    {
        out.push(clone_declarator(&ds[i]));
        i = i + 1;
    }
    assert(view_declarators(out@) =~~= view_declarators(ds@));
    out
}

pub fn clone_declarator(d: &VarDeclarator) -> (r: VarDeclarator)
    ensures
        view_declarator(r) == view_declarator(*d),
    decreases d,
{
    VarDeclarator {
        name: clone_pat(&d.name),
        init: match &d.init {
            Some(e) => Some(Box::new(clone_expr(&**e))),
            None => None,
        },
    }
}

pub fn clone_pat(p: &Pat) -> (r: Pat)
    ensures
        view_pat(r) == view_pat(*p),
{
    match p {
        Pat::Ident(s) => Pat::Ident(s.clone()),
        Pat::Object(names) => Pat::Object(clone_strings(names)),
    }
}

pub fn clone_stmt(s: &Stmt) -> (r: Stmt)
    ensures
        view_stmt(r) == view_stmt(*s),
    decreases s,
{
    match s {
        Stmt::Expr(e) => Stmt::Expr(Box::new(clone_expr(&**e))),
        Stmt::Decl(d) => Stmt::Decl(clone_decl(d)),
        Stmt::Return(arg) => Stmt::Return(
            match arg {
                Some(e) => Some(Box::new(clone_expr(&**e))),
                None => None,
            },
        ),
        Stmt::If { cond, cons, alt } => Stmt::If {
            cond: Box::new(clone_expr(&**cond)),
            cons: Box::new(clone_stmt(&**cons)),
            alt: match alt {
                Some(s2) => Some(Box::new(clone_stmt(&**s2))),
                None => None,
            },
        },
        Stmt::Block(b) => Stmt::Block(clone_block(b)),
        Stmt::While { cond, body } => Stmt::While {
            cond: Box::new(clone_expr(&**cond)),
            body: Box::new(clone_stmt(&**body)),
        },
        Stmt::Throw(e) => Stmt::Throw(Box::new(clone_expr(&**e))),
        Stmt::Empty => Stmt::Empty,
    }
}

pub fn clone_expr(e: &Expr) -> (r: Expr)
    ensures
        view_expr(r) == view_expr(*e),
    decreases e,
{
    match e {
        Expr::Ident(s) => Expr::Ident(s.clone()),
        Expr::Str(s) => Expr::Str(s.clone()),
        Expr::Bool(b) => Expr::Bool(*b),
        Expr::Num(n) => Expr::Num(*n),
        Expr::Array(elems) => Expr::Array(clone_args(elems)),
        Expr::Object(props) => Expr::Object(clone_props(props)),
        Expr::Call { callee, args } => Expr::Call {
            callee: Box::new(clone_expr(&**callee)),
            args: clone_args(args),
        },
        Expr::New { callee, args } => Expr::New {
            callee: Box::new(clone_expr(&**callee)),
            args: clone_args(args),
        },
        Expr::Member { obj, prop } => Expr::Member {
            obj: Box::new(clone_expr(&**obj)),
            prop: prop.clone(),
        },
        Expr::Await(arg) => Expr::Await(Box::new(clone_expr(&**arg))),
        Expr::Assign { target, value } => Expr::Assign {
            target: Box::new(clone_expr(&**target)),
            value: Box::new(clone_expr(&**value)),
        },
        Expr::Arrow { params, body, is_async } => {
            let r = Expr::Arrow {
                params: clone_strings(params),
                body: clone_arrow_body(body),
                is_async: *is_async,
            };
            assert(view_expr(r) =~~= view_expr(*e));
            r
        },
        Expr::FnExpr { name, is_async, params, body } => {
            let r = Expr::FnExpr {
                name: clone_opt_string(name),
                is_async: *is_async,
                params: clone_strings(params),
                body: match body {
                    Some(b) => Some(clone_block(b)),
                    None => None,
                },
            };
            assert(view_expr(r) =~~= view_expr(*e));
            r
        },
        Expr::Bin { op, left, right } => Expr::Bin {
            op: *op,
            left: Box::new(clone_expr(&**left)),
            right: Box::new(clone_expr(&**right)),
        },
        Expr::Unary { op, arg } => Expr::Unary { op: *op, arg: Box::new(clone_expr(&**arg)) },
    }
}

pub fn clone_arrow_body(b: &ArrowBody) -> (r: ArrowBody)
    ensures
        view_arrow_body(r) == view_arrow_body(*b),
    decreases b,
{
    match b {
        ArrowBody::Block(block) => ArrowBody::Block(clone_block(block)),
        ArrowBody::Expr(e) => ArrowBody::Expr(Box::new(clone_expr(&**e))),
    }
}

pub fn clone_args(args: &Vec<ExprOrSpread>) -> (r: Vec<ExprOrSpread>)
    ensures
        view_args(r@) == view_args(args@),
    decreases args,
{
    let mut out: Vec<ExprOrSpread> = Vec::new();
    let mut i: usize = 0;
    while i < args.len()
        invariant
            i <= args.len(),
            out.len() == i,
            forall|j: int| 0 <= j < i ==> view_arg(out[j]) == view_arg(args[j]),
        decreases args.len() - i,
    {
        out.push(clone_arg(&args[i]));
        i = i + 1;
    }
    assert(view_args(out@) =~~= view_args(args@));
    out
}

pub fn clone_arg(a: &ExprOrSpread) -> (r: ExprOrSpread)
    ensures
        view_arg(r) == view_arg(*a),
    decreases a,
{
    ExprOrSpread { spread: a.spread, expr: clone_expr(&a.expr) }
}

pub fn clone_props(ps: &Vec<Prop>) -> (r: Vec<Prop>)
    ensures
        view_props(r@) == view_props(ps@),
    decreases ps,
{
    let mut out: Vec<Prop> = Vec::new();
    let mut i: usize = 0;
    while i < ps.len()
        invariant
            i <= ps.len(),
            out.len() == i,
            forall|j: int| 0 <= j < i ==> view_prop(out[j]) == view_prop(ps[j]),
        decreases ps.len() - i,
    {
        out.push(clone_prop(&ps[i]));
        i = i + 1;
    }
    assert(view_props(out@) =~~= view_props(ps@));
    out
}

pub fn clone_prop(p: &Prop) -> (r: Prop)
    ensures
        view_prop(r) == view_prop(*p),
    decreases p,
{
    Prop { key: p.key.clone(), value: clone_expr(&p.value) }
}

} // verus!
