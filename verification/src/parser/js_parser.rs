//! The search for tagged SQL templates below a statement.

use crate::common::sql::{Span, SQL};
use crate::parser::ast::{Decl, Key, Stmt, VarDeclarator};
use crate::parser::found::{
    found_in_cases, found_in_stmt, found_in_stmts, found_in_var_decls, key_name,
};
use crate::parser::tag::{get_sql_from_class_members, get_sql_from_expr, get_sql_from_var_decl};
use vstd::prelude::*;

verus! {

/// The name that the key of a class member gives to the queries of its
/// value: that of a private name, a plain name or a string.
pub fn get_var_decl_name_from_key(key: &Key) -> (name: Option<String>)
    ensures
        name == key_name(*key),
{
    match key {
        Key::Private(name) => Some(name.clone()),
        Key::Ident(name) => Some(name.clone()),
        Key::Str(value) => Some(value.clone()),
        Key::Num => None,
        Key::Computed => None,
        Key::BigInt => None,
    }
}

/// Searches each of `stmts`.
fn find_in_stmts(sqls: &mut Vec<SQL>, stmts: &Vec<Stmt>, import_alias: &String)
    ensures
        final(sqls)@ == old(sqls)@ + found_in_stmts(stmts@, stmts@.len(), *import_alias),
    decreases stmts,
{
    let ghost before = sqls@;
    let mut i: usize = 0;
    while i < stmts.len()
        invariant
            i <= stmts.len(),
            sqls@ == before + found_in_stmts(stmts@, i as nat, *import_alias),
        decreases stmts.len() - i,
    {
        recurse_and_find_sql(sqls, &stmts[i], import_alias);
        proof {
            assert(sqls@ =~= before + found_in_stmts(stmts@, (i + 1) as nat, *import_alias));
        }
        i = i + 1;
    }
}

/// Searches the statements of each case of a `switch`.
fn find_in_cases(sqls: &mut Vec<SQL>, cases: &Vec<Vec<Stmt>>, import_alias: &String)
    ensures
        final(sqls)@ == old(sqls)@ + found_in_cases(cases@, cases@.len(), *import_alias),
    decreases cases,
{
    let ghost before = sqls@;
    let mut i: usize = 0;
    while i < cases.len()
        invariant
            i <= cases.len(),
            sqls@ == before + found_in_cases(cases@, i as nat, *import_alias),
        decreases cases.len() - i,
    {
        find_in_stmts(sqls, &cases[i], import_alias);
        proof {
            assert(sqls@ =~= before + found_in_cases(cases@, (i + 1) as nat, *import_alias));
        }
        i = i + 1;
    }
}

/// Searches the initial value of each name of a variable declaration.
fn find_in_var_decls(
    sqls: &mut Vec<SQL>,
    decls: &Vec<VarDeclarator>,
    span: &Span,
    import_alias: &String,
)
    ensures
        final(sqls)@ == old(sqls)@ + found_in_var_decls(
            decls@,
            decls@.len(),
            *span,
            *import_alias,
        ),
    decreases decls,
{
    let ghost before = sqls@;
    let mut i: usize = 0;
    while i < decls.len()
        invariant
            i <= decls.len(),
            sqls@ == before + found_in_var_decls(decls@, i as nat, *span, *import_alias),
        decreases decls.len() - i,
    {
        let mut new_sqls = get_sql_from_var_decl(&decls[i], span, import_alias);
        sqls.append(&mut new_sqls);
        proof {
            assert(sqls@ =~= before + found_in_var_decls(
                decls@,
                (i + 1) as nat,
                *span,
                *import_alias,
            ));
        }
        i = i + 1;
    }
}

/// Adds to `sqls` the queries of the tagged templates below `stmt`: in the
/// bodies of blocks, branches, loops, `try` statements, functions and
/// classes, in the initial values of variable declarations, which give
/// their names to the queries, and in the expressions of expression,
/// `return` and `throw` statements.
pub fn recurse_and_find_sql(sqls: &mut Vec<SQL>, stmt: &Stmt, import_alias: &String)
    ensures
        final(sqls)@ == old(sqls)@ + found_in_stmt(*stmt, *import_alias),
    decreases stmt,
{
    match stmt {
        Stmt::Block(block) => {
            find_in_stmts(sqls, &block.stmts, import_alias);
        },
        Stmt::With(body) => {
            recurse_and_find_sql(sqls, &**body, import_alias);
        },
        Stmt::Labeled(body) => {
            recurse_and_find_sql(sqls, &**body, import_alias);
        },
        Stmt::While(body) => {
            recurse_and_find_sql(sqls, &**body, import_alias);
        },
        Stmt::DoWhile(body) => {
            recurse_and_find_sql(sqls, &**body, import_alias);
        },
        Stmt::For(body) => {
            recurse_and_find_sql(sqls, &**body, import_alias);
        },
        Stmt::ForIn(body) => {
            recurse_and_find_sql(sqls, &**body, import_alias);
        },
        Stmt::ForOf(body) => {
            recurse_and_find_sql(sqls, &**body, import_alias);
        },
        Stmt::Return { arg, span } => {
            if let Some(arg) = arg {
                get_sql_from_expr(sqls, &None, &**arg, span, import_alias);
            }
        },
        Stmt::Throw { arg, span } => {
            get_sql_from_expr(sqls, &None, &**arg, span, import_alias);
        },
        Stmt::Expr { expr, span } => {
            get_sql_from_expr(sqls, &None, &**expr, span, import_alias);
        },
        Stmt::If { cons, alt } => {
            recurse_and_find_sql(sqls, &**cons, import_alias);
            if let Some(alt) = alt {
                recurse_and_find_sql(sqls, &**alt, import_alias);
            }
        },
        Stmt::Switch(cases) => {
            find_in_cases(sqls, cases, import_alias);
        },
        Stmt::Try { block, handler, finalizer } => {
            find_in_stmts(sqls, &block.stmts, import_alias);
            if let Some(handler) = handler {
                find_in_stmts(sqls, &handler.stmts, import_alias);
            }
            if let Some(finalizer) = finalizer {
                find_in_stmts(sqls, &finalizer.stmts, import_alias);
            }
        },
        Stmt::Decl(decl) => {
            match decl {
                Decl::Var { decls, span } => {
                    find_in_var_decls(sqls, decls, span, import_alias);
                },
                Decl::Fn(body) => {
                    if let Some(body) = body {
                        find_in_stmts(sqls, &body.stmts, import_alias);
                    }
                },
                Decl::Class { members, span } => {
                    get_sql_from_class_members(sqls, &None, members, span, import_alias);
                },
                Decl::Other => {},
            }
        },
        Stmt::Empty => {},
        Stmt::Debugger => {},
        Stmt::Break => {},
        Stmt::Continue => {},
    }
    proof {
        assert(sqls@ =~= old(sqls)@ + found_in_stmt(*stmt, *import_alias));
    }
}

} // verus!
