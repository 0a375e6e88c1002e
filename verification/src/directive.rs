//! Recognition of directive statements.
//!
//! A directive is a statement that is exactly a bare string-literal
//! expression with a given text, at statement granularity. Block scans look
//! only at the direct, top-level statements of one block.

use vstd::prelude::*;

use crate::ast::{view_stmt, view_stmts, BlockStmt, Stmt, StmtV};

verus! {

/// The statement is exactly a bare string-literal expression equal to `text`.
pub open spec fn is_directive_stmt(s: StmtV, text: Seq<char>) -> bool {
    match s {
        StmtV::Expr(e) => match *e {
            crate::ast::ExprV::Str(v) => v == text,
            _ => false,
        },
        _ => false,
    }
}

pub open spec fn is_workflow_directive(s: StmtV) -> bool {
    is_directive_stmt(s, "use workflow"@)
}

pub open spec fn is_step_directive(s: StmtV) -> bool {
    is_directive_stmt(s, "use step"@)
}

/// Some direct, top-level statement of the sequence matches `text`.
pub open spec fn stmts_have_directive(ss: Seq<StmtV>, text: Seq<char>) -> bool {
    exists|i: int| 0 <= i < ss.len() && is_directive_stmt(ss[i], text)
}

fn is_directive(stmt: &Stmt, text: &str) -> (r: bool)
    ensures
        r == is_directive_stmt(view_stmt(*stmt), text@),
{
    match stmt {
        Stmt::Expr(e) => match &**e {
            crate::ast::Expr::Str(s) => {
                let t = text.to_owned();
                let r = *s == t;
                assert(crate::ast::view_expr(**e) == crate::ast::ExprV::Str(s@));
                r
            },
            _ => false,
        },
        _ => false,
    }
}

/// Check if a statement is a `"use workflow"` directive.
pub fn is_use_workflow_directive(stmt: &Stmt) -> (r: bool)
    ensures
        r == is_workflow_directive(view_stmt(*stmt)),
{
    is_directive(stmt, "use workflow")
}

/// Check if a statement is a `"use step"` directive.
pub fn is_use_step_directive(stmt: &Stmt) -> (r: bool)
    ensures
        r == is_step_directive(view_stmt(*stmt)),
{
    is_directive(stmt, "use step")
}

fn stmts_have_directive_exec(ss: &Vec<Stmt>, text: &str) -> (r: bool)
    ensures
        r == stmts_have_directive(view_stmts(ss@), text@),
{
    let mut i: usize = 0;
    while i < ss.len()
        invariant
            i <= ss.len(),
            forall|j: int| 0 <= j < i ==> !is_directive_stmt(view_stmts(ss@)[j], text@),
        decreases ss.len() - i,
    {
        if is_directive(&ss[i], text) {
            assert(is_directive_stmt(view_stmts(ss@)[i as int], text@));
            return true;
        }
        i = i + 1;
    }
    false
}

/// Check if a block statement contains a `"use workflow"` directive.
pub fn block_has_workflow_directive(block: &BlockStmt) -> (r: bool)
    ensures
        r == stmts_have_directive(crate::ast::view_block(*block), "use workflow"@),
{
    stmts_have_directive_exec(&block.stmts, "use workflow")
}

/// Check if a block statement contains a `"use step"` directive.
pub fn block_has_step_directive(block: &BlockStmt) -> (r: bool)
    ensures
        r == stmts_have_directive(crate::ast::view_block(*block), "use step"@),
{
    stmts_have_directive_exec(&block.stmts, "use step")
}

} // verus!
