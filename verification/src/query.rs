//! Read-only inspection of a module, for callers that check what a rewrite
//! produced: which imports it has, which names it exports, which function
//! declarations remain.

use vstd::prelude::*;

use crate::ast::{
    view_decl, view_declarators, view_fn_decl, view_import, view_item, view_items, view_stmt,
    view_var_decl, Decl, DeclV, Module, ModuleItem, ModuleItemV, Pat, PatV, Stmt, StmtV,
    VarDeclaratorV,
};

verus! {

broadcast use vstd::std_specs::vec::group_vec_axioms;

/// The item imports from the given source path.
pub open spec fn item_is_import_from(item: ModuleItemV, src: Seq<char>) -> bool {
    item matches ModuleItemV::Import(d) && d.src == src
}

pub open spec fn has_import_from(items: Seq<ModuleItemV>, src: Seq<char>) -> bool {
    exists|i: int| 0 <= i < items.len() && item_is_import_from(#[trigger] items[i], src)
}

pub open spec fn decls_bind_name(ds: Seq<VarDeclaratorV>, name: Seq<char>) -> bool {
    exists|i: int| 0 <= i < ds.len() && (#[trigger] ds[i]).name == PatV::Ident(name)
}

/// The item is an exported variable declaration binding the given name.
pub open spec fn item_is_export_const_named(item: ModuleItemV, name: Seq<char>) -> bool {
    item matches ModuleItemV::ExportDecl(DeclV::Var(v)) && decls_bind_name(v.decls, name)
}

pub open spec fn has_export_named_spec(items: Seq<ModuleItemV>, name: Seq<char>) -> bool {
    exists|i: int| 0 <= i < items.len() && item_is_export_const_named(#[trigger] items[i], name)
}

/// The item is a plain (non-exported) function declaration of the name.
pub open spec fn item_is_fn_decl_named(item: ModuleItemV, name: Seq<char>) -> bool {
    item matches ModuleItemV::Stmt(StmtV::Decl(DeclV::Fn(f))) && f.name == name
}

pub open spec fn has_fn_decl_named_spec(items: Seq<ModuleItemV>, name: Seq<char>) -> bool {
    exists|i: int| 0 <= i < items.len() && item_is_fn_decl_named(#[trigger] items[i], name)
}

pub open spec fn item_is_import(item: ModuleItemV) -> bool {
    item matches ModuleItemV::Import(_)
}

pub open spec fn count_imports_spec(s: Seq<ModuleItemV>) -> int
    decreases s.len(),
{
    if s.len() == 0 {
        0
    } else {
        count_imports_spec(s.drop_last()) + if item_is_import(s.last()) {
            1int
        } else {
            0int
        }
    }
}

pub open spec fn count_var_decl_stmts_spec(s: Seq<ModuleItemV>) -> int
    decreases s.len(),
{
    if s.len() == 0 {
        0
    } else {
        count_var_decl_stmts_spec(s.drop_last()) + if item_is_var_decl_stmt(s.last()) {
            1int
        } else {
            0int
        }
    }
}

/// The item is a plain (non-exported) variable declaration statement.
pub open spec fn item_is_var_decl_stmt(item: ModuleItemV) -> bool {
    item matches ModuleItemV::Stmt(StmtV::Decl(DeclV::Var(_)))
}

fn item_import_src_eq(item: &ModuleItem, src: &str) -> (r: bool)
    ensures
        r == item_is_import_from(view_item(*item), src@),
{
    match item {
        ModuleItem::Import(d) => {
            assert(view_item(*item) == ModuleItemV::Import(view_import(*d)));
            d.src == src.to_owned()
        },
        _ => false,
    }
}

/// Whether the module imports from the given source path.
pub fn has_import(m: &Module, src: &str) -> (r: bool)
    ensures
        r == has_import_from(view_items(m.body@), src@),
{
    let ghost itemsv = view_items(m.body@);
    let mut i: usize = 0;
    while i < m.body.len()
        invariant
            i <= m.body.len(),
            itemsv == view_items(m.body@),
            forall|j: int| 0 <= j < i ==> !item_is_import_from(#[trigger] itemsv[j], src@),
        decreases m.body.len() - i,
    {
        if item_import_src_eq(&m.body[i], src) {
            assert(item_is_import_from(itemsv[i as int], src@));
            return true;
        }
        i = i + 1;
    }
    false
}

fn decls_bind_name_exec(ds: &Vec<crate::ast::VarDeclarator>, name: &str) -> (r: bool)
    ensures
        r == decls_bind_name(view_declarators(ds@), name@),
{
    let ghost dsv = view_declarators(ds@);
    let target = name.to_owned();
    let mut i: usize = 0;
    while i < ds.len()
        invariant
            i <= ds.len(),
            dsv == view_declarators(ds@),
            target@ == name@,
            forall|j: int| 0 <= j < i ==> (#[trigger] dsv[j]).name != PatV::Ident(name@),
        decreases ds.len() - i,
    {
        match &ds[i].name {
            Pat::Ident(n) => {
                if *n == target {
                    assert(dsv[i as int].name == PatV::Ident(name@));
                    return true;
                }
                assert(dsv[i as int].name != PatV::Ident(name@));
            },
            Pat::Object(names) => {
                assert(dsv[i as int].name != PatV::Ident(name@));
            },
        }
        i = i + 1;
    }
    false
}

fn item_exports_const_named(item: &ModuleItem, name: &str) -> (r: bool)
    ensures
        r == item_is_export_const_named(view_item(*item), name@),
{
    match item {
        ModuleItem::ExportDecl(Decl::Var(v)) => {
            assert(view_decl(Decl::Var(*v)) == DeclV::Var(view_var_decl(*v)));
            assert(view_item(*item) == ModuleItemV::ExportDecl(DeclV::Var(view_var_decl(*v))));
            decls_bind_name_exec(&v.decls, name)
        },
        _ => false,
    }
}

/// Whether the module has an exported variable declaration of the name.
pub fn has_export_named(m: &Module, name: &str) -> (r: bool)
    ensures
        r == has_export_named_spec(view_items(m.body@), name@),
{
    let ghost itemsv = view_items(m.body@);
    let mut i: usize = 0;
    while i < m.body.len()
        invariant
            i <= m.body.len(),
            itemsv == view_items(m.body@),
            forall|j: int| 0 <= j < i ==> !item_is_export_const_named(#[trigger] itemsv[j], name@),
        decreases m.body.len() - i,
    {
        if item_exports_const_named(&m.body[i], name) {
            assert(item_is_export_const_named(itemsv[i as int], name@));
            return true;
        }
        i = i + 1;
    }
    false
}

/// Whether a plain function declaration of the name remains in the module.
pub fn has_fn_decl_named(m: &Module, name: &str) -> (r: bool)
    ensures
        r == has_fn_decl_named_spec(view_items(m.body@), name@),
{
    proof {
        reveal_with_fuel(view_stmt, 2);
        reveal_with_fuel(view_decl, 2);
    }
    let ghost itemsv = view_items(m.body@);
    let mut i: usize = 0;
    while i < m.body.len()
        invariant
            i <= m.body.len(),
            itemsv == view_items(m.body@),
            forall|j: int| 0 <= j < i ==> !item_is_fn_decl_named(#[trigger] itemsv[j], name@),
        decreases m.body.len() - i,
    {
        let found = match &m.body[i] {
            ModuleItem::Stmt(Stmt::Decl(Decl::Fn(f))) => {
                proof {
                    reveal_with_fuel(view_stmt, 2);
                    reveal_with_fuel(view_decl, 2);
                }
                assert(view_item(m.body@[i as int]) == ModuleItemV::Stmt(
                    StmtV::Decl(DeclV::Fn(view_fn_decl(*f))),
                ));
                f.name == name.to_owned()
            },
            _ => false,
        };
        if found {
            assert(item_is_fn_decl_named(itemsv[i as int], name@));
            return true;
        }
        i = i + 1;
    }
    false
}

fn item_is_import_exec(item: &ModuleItem) -> (r: bool)
    ensures
        r == item_is_import(view_item(*item)),
{
    match item {
        ModuleItem::Import(d) => {
            assert(view_item(*item) == ModuleItemV::Import(view_import(*d)));
            true
        },
        ModuleItem::ExportDecl(d) => {
            assert(view_item(*item) == ModuleItemV::ExportDecl(view_decl(*d)));
            false
        },
        ModuleItem::ExportDefaultFn(f) => {
            assert(view_item(*item) == ModuleItemV::ExportDefaultFn(view_fn_decl(*f)));
            false
        },
        ModuleItem::Stmt(st) => {
            assert(view_item(*item) == ModuleItemV::Stmt(view_stmt(*st)));
            false
        },
    }
}

fn item_is_var_decl_stmt_exec(item: &ModuleItem) -> (r: bool)
    ensures
        r == item_is_var_decl_stmt(view_item(*item)),
{
    match item {
        ModuleItem::Stmt(st) => {
            assert(view_item(*item) == ModuleItemV::Stmt(view_stmt(*st)));
            match st {
                Stmt::Decl(d) => {
                    assert(view_stmt(*st) == StmtV::Decl(view_decl(*d)));
                    match d {
                        Decl::Var(v) => {
                            assert(view_decl(*d) == DeclV::Var(view_var_decl(*v)));
                            true
                        },
                        Decl::Fn(f) => {
                            assert(view_decl(*d) == DeclV::Fn(view_fn_decl(*f)));
                            false
                        },
                    }
                },
                Stmt::Expr(e) => {
                    assert(view_stmt(*st) is Expr);
                    false
                },
                Stmt::Return(arg) => {
                    assert(view_stmt(*st) is Return);
                    false
                },
                Stmt::If { cond, cons, alt } => {
                    assert(view_stmt(*st) is If);
                    false
                },
                Stmt::Block(b) => {
                    assert(view_stmt(*st) is Block);
                    false
                },
                Stmt::While { cond, body } => {
                    assert(view_stmt(*st) is While);
                    false
                },
                Stmt::Throw(e) => {
                    assert(view_stmt(*st) is Throw);
                    false
                },
                Stmt::Empty => {
                    assert(view_stmt(*st) is Empty);
                    false
                },
            }
        },
        ModuleItem::Import(d) => {
            assert(view_item(*item) == ModuleItemV::Import(view_import(*d)));
            false
        },
        ModuleItem::ExportDecl(d) => {
            assert(view_item(*item) == ModuleItemV::ExportDecl(view_decl(*d)));
            false
        },
        ModuleItem::ExportDefaultFn(f) => {
            assert(view_item(*item) == ModuleItemV::ExportDefaultFn(view_fn_decl(*f)));
            false
        },
    }
}

/// How many import declarations the module has.
pub fn count_imports(m: &Module) -> (r: usize)
    ensures
        r == count_imports_spec(view_items(m.body@)),
{
    let ghost itemsv = view_items(m.body@);
    let mut count: usize = 0;
    let mut i: usize = 0;
    assert(itemsv.take(0) =~= Seq::<ModuleItemV>::empty());
    while i < m.body.len()
        invariant
            i <= m.body.len(),
            itemsv == view_items(m.body@),
            count <= i,
            count == count_imports_spec(itemsv.take(i as int)),
        decreases m.body.len() - i,
    {
        proof {
            assert(itemsv.take(i as int + 1).drop_last() =~= itemsv.take(i as int));
            assert(itemsv.take(i as int + 1).last() == itemsv[i as int]);
        }
        if item_is_import_exec(&m.body[i]) {
            count = count + 1;
        }
        i = i + 1;
    }
    assert(itemsv.take(m.body.len() as int) =~= itemsv);
    count
}

/// How many plain variable-declaration statements the module has.
pub fn count_var_decl_stmts(m: &Module) -> (r: usize)
    ensures
        r == count_var_decl_stmts_spec(view_items(m.body@)),
{
    let ghost itemsv = view_items(m.body@);
    let mut count: usize = 0;
    let mut i: usize = 0;
    assert(itemsv.take(0) =~= Seq::<ModuleItemV>::empty());
    while i < m.body.len()
        invariant
            i <= m.body.len(),
            itemsv == view_items(m.body@),
            count <= i,
            count == count_var_decl_stmts_spec(itemsv.take(i as int)),
        decreases m.body.len() - i,
    {
        proof {
            assert(itemsv.take(i as int + 1).drop_last() =~= itemsv.take(i as int));
            assert(itemsv.take(i as int + 1).last() == itemsv[i as int]);
        }
        if item_is_var_decl_stmt_exec(&m.body[i]) {
            count = count + 1;
        }
        i = i + 1;
    }
    assert(itemsv.take(m.body.len() as int) =~= itemsv);
    count
}

} // verus!
