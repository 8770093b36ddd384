//! What the search finds: for each kind of node, the queries of the tagged
//! templates below it, in the order of the source.

use crate::common::sql::{Span, SQL};
use crate::parser::ast::{
    ArrowBody, BlockStmt, ClassMember, Decl, Expr, Key, OptChainBase, Pat, Prop, Stmt,
    VarDeclarator,
};
use crate::text::is_substring;
use vstd::prelude::*;

verus! {

/// Whether `tag` is an identifier whose printed form holds `alias`.
pub open spec fn tag_matches(tag: Expr, alias: String) -> bool {
    tag matches Expr::Ident(printed) && is_substring(alias@, printed@)
}

/// One query for each raw text of a template, all with the same binding
/// name and span.
pub open spec fn template_sqls(
    quasis: Seq<String>,
    name: Option<String>,
    span: Span,
    alias: String,
) -> Seq<SQL> {
    Seq::new(
        quasis.len(),
        |i: int| SQL { query: quasis[i], binding_name: name, span: span, import_alias: alias },
    )
}

/// The name that a binding pattern gives: that of a plain name, and none for
/// every other pattern.
pub open spec fn pattern_name(pattern: Pat) -> Option<String> {
    match pattern {
        Pat::Ident(name) => Some(name),
        _ => None,
    }
}

/// The name that the key of a class member gives.
pub open spec fn key_name(key: Key) -> Option<String> {
    match key {
        Key::Private(name) => Some(name),
        Key::Ident(name) => Some(name),
        Key::Str(value) => Some(value),
        _ => None,
    }
}

/// The queries below an expression. `name` and `span` are those of the
/// binding or statement that the expression stands in.
pub open spec fn found_in_expr(e: Expr, name: Option<String>, span: Span, alias: String) -> Seq<
    SQL,
>
    decreases e, 0nat,
{
    match e {
        Expr::TaggedTpl { tag, quasis, exprs } => if tag_matches(*tag, alias) {
            template_sqls(quasis@, name, span, alias) + found_in_exprs(
                exprs@,
                exprs@.len(),
                name,
                span,
                alias,
            )
        } else {
            Seq::empty()
        },
        Expr::TsNonNull(inner) | Expr::TsTypeAssertion(inner) | Expr::TsConstAssertion(inner)
        | Expr::TsAs(inner) | Expr::TsSatisfies(inner) | Expr::Paren(inner) | Expr::Unary(inner)
        | Expr::Update(inner) | Expr::Assign(inner) | Expr::Member(inner) | Expr::Await(
            inner,
        ) => found_in_expr(*inner, name, span, alias),
        Expr::Call { callee, args } => (match callee {
            Some(callee) if args@.len() == 0 => found_in_expr(*callee, name, span, alias),
            _ => Seq::empty(),
        }) + found_in_exprs(args@, args@.len(), name, span, alias),
        Expr::Array(elems) => found_in_elems(elems@, elems@.len(), name, span, alias),
        Expr::Object(props) => found_in_props(props@, props@.len(), name, span, alias),
        Expr::Bin(left, right) => found_in_expr(*left, name, span, alias) + found_in_expr(
            *right,
            name,
            span,
            alias,
        ),
        Expr::SuperProp(Some(computed)) | Expr::Yield(Some(computed)) => found_in_expr(
            *computed,
            name,
            span,
            alias,
        ),
        Expr::Cond(test, cons, alt) => found_in_expr(*test, name, span, alias) + found_in_expr(
            *cons,
            name,
            span,
            alias,
        ) + found_in_expr(*alt, name, span, alias),
        Expr::New { callee, args } => found_in_expr(*callee, name, span, alias) + (match args {
            Some(args) => found_in_exprs(args@, args@.len(), name, span, alias),
            None => Seq::empty(),
        }),
        Expr::Sequence(exprs) | Expr::Tpl(exprs) => found_in_exprs(
            exprs@,
            exprs@.len(),
            name,
            span,
            alias,
        ),
        Expr::Arrow { params, body } => found_in_params(
            params@,
            params@.len(),
            name,
            span,
            alias,
        ) + (match body {
            ArrowBody::Block(block) => found_in_body(
                block.stmts@,
                block.stmts@.len(),
                name,
                span,
                alias,
            ),
            ArrowBody::Expr(value) => found_in_expr(*value, name, span, alias),
        }),
        Expr::Class(members) => found_in_members(members@, members@.len(), name, span, alias),
        Expr::OptChain(OptChainBase::Member(object)) => found_in_expr(*object, name, span, alias),
        Expr::OptChain(OptChainBase::Call { callee, args }) => found_in_expr(
            *callee,
            name,
            span,
            alias,
        ) + found_in_exprs(args@, args@.len(), name, span, alias),
        _ => Seq::empty(),
    }
}

/// The queries below the first `n` of `exprs`.
pub open spec fn found_in_exprs(
    exprs: Seq<Expr>,
    n: nat,
    name: Option<String>,
    span: Span,
    alias: String,
) -> Seq<SQL>
    decreases exprs, n,
{
    if n == 0 || n > exprs.len() {
        Seq::empty()
    } else {
        found_in_exprs(exprs, (n - 1) as nat, name, span, alias) + found_in_expr(
            exprs[n - 1],
            name,
            span,
            alias,
        )
    }
}

/// The queries below the first `n` elements of an array literal.
pub open spec fn found_in_elems(
    elems: Seq<Option<Expr>>,
    n: nat,
    name: Option<String>,
    span: Span,
    alias: String,
) -> Seq<SQL>
    decreases elems, n,
{
    if n == 0 || n > elems.len() {
        Seq::empty()
    } else {
        found_in_elems(elems, (n - 1) as nat, name, span, alias) + (match elems[n - 1] {
            Some(elem) => found_in_expr(elem, name, span, alias),
            None => Seq::empty(),
        })
    }
}

/// The queries below the values and bodies of the first `n` properties of an
/// object literal.
pub open spec fn found_in_props(
    props: Seq<Prop>,
    n: nat,
    name: Option<String>,
    span: Span,
    alias: String,
) -> Seq<SQL>
    decreases props, n,
{
    if n == 0 || n > props.len() {
        Seq::empty()
    } else {
        found_in_props(props, (n - 1) as nat, name, span, alias) + (match props[n - 1] {
            Prop::KeyValue(value) | Prop::Assign(value) => found_in_expr(*value, name, span, alias),
            Prop::Getter(body) | Prop::Setter(body) | Prop::Method(body) => found_in_block(
                body,
                name,
                span,
                alias,
            ),
            Prop::Spread | Prop::Shorthand => Seq::empty(),
        })
    }
}

/// The queries below the default values of the first `n` parameters.
pub open spec fn found_in_params(
    params: Seq<Pat>,
    n: nat,
    name: Option<String>,
    span: Span,
    alias: String,
) -> Seq<SQL>
    decreases params, n,
{
    if n == 0 || n > params.len() {
        Seq::empty()
    } else {
        found_in_params(params, (n - 1) as nat, name, span, alias) + (match params[n - 1] {
            Pat::Assign(value) | Pat::Expr(value) => found_in_expr(*value, name, span, alias),
            _ => Seq::empty(),
        })
    }
}

/// The queries below the first `n` members of a class.
pub open spec fn found_in_members(
    members: Seq<ClassMember>,
    n: nat,
    name: Option<String>,
    span: Span,
    alias: String,
) -> Seq<SQL>
    decreases members, n,
{
    if n == 0 || n > members.len() {
        Seq::empty()
    } else {
        found_in_members(members, (n - 1) as nat, name, span, alias) + (match members[n - 1] {
            ClassMember::Constructor(body) | ClassMember::Method(body)
            | ClassMember::PrivateMethod(body) => found_in_block(body, name, span, alias),
            ClassMember::ClassProp(Some(value)) | ClassMember::PrivateProp(
                Some(value),
            ) => found_in_expr(*value, name, span, alias),
            ClassMember::StaticBlock(block) => found_in_body(
                block.stmts@,
                block.stmts@.len(),
                name,
                span,
                alias,
            ),
            ClassMember::AutoAccessor { key, value: Some(value) } => found_in_expr(
                *value,
                key_name(key),
                span,
                alias,
            ),
            _ => Seq::empty(),
        })
    }
}

/// The queries below a body that may be missing.
pub open spec fn found_in_block(
    block: Option<BlockStmt>,
    name: Option<String>,
    span: Span,
    alias: String,
) -> Seq<SQL>
    decreases block, 0nat,
{
    match block {
        Some(block) => found_in_body(block.stmts@, block.stmts@.len(), name, span, alias),
        None => Seq::empty(),
    }
}

/// The queries below the first `n` statements of the body of a function or
/// a class member. An expression statement is searched under the name and
/// span that the body stands in, every other statement on its own.
pub open spec fn found_in_body(
    stmts: Seq<Stmt>,
    n: nat,
    name: Option<String>,
    span: Span,
    alias: String,
) -> Seq<SQL>
    decreases stmts, n,
{
    if n == 0 || n > stmts.len() {
        Seq::empty()
    } else {
        found_in_body(stmts, (n - 1) as nat, name, span, alias) + (match stmts[n - 1] {
            Stmt::Expr { expr, .. } => found_in_expr(*expr, name, span, alias),
            other => found_in_stmt(other, alias),
        })
    }
}

/// The queries below a statement.
pub open spec fn found_in_stmt(stmt: Stmt, alias: String) -> Seq<SQL>
    decreases stmt, 0nat,
{
    match stmt {
        Stmt::Block(block) => found_in_stmts(block.stmts@, block.stmts@.len(), alias),
        Stmt::With(body) | Stmt::Labeled(body) | Stmt::While(body) | Stmt::DoWhile(body)
        | Stmt::For(body) | Stmt::ForIn(body) | Stmt::ForOf(body) => found_in_stmt(*body, alias),
        Stmt::Return { arg: Some(arg), span } => found_in_expr(*arg, None, span, alias),
        Stmt::Throw { arg, span } => found_in_expr(*arg, None, span, alias),
        Stmt::Expr { expr, span } => found_in_expr(*expr, None, span, alias),
        Stmt::If { cons, alt } => found_in_stmt(*cons, alias) + (match alt {
            Some(alt) => found_in_stmt(*alt, alias),
            None => Seq::empty(),
        }),
        Stmt::Switch(cases) => found_in_cases(cases@, cases@.len(), alias),
        Stmt::Try { block, handler, finalizer } => found_in_stmts(
            block.stmts@,
            block.stmts@.len(),
            alias,
        ) + (match handler {
            Some(handler) => found_in_stmts(handler.stmts@, handler.stmts@.len(), alias),
            None => Seq::empty(),
        }) + (match finalizer {
            Some(finalizer) => found_in_stmts(finalizer.stmts@, finalizer.stmts@.len(), alias),
            None => Seq::empty(),
        }),
        Stmt::Decl(Decl::Var { decls, span }) => found_in_var_decls(
            decls@,
            decls@.len(),
            span,
            alias,
        ),
        Stmt::Decl(Decl::Fn(Some(body))) => found_in_stmts(body.stmts@, body.stmts@.len(), alias),
        Stmt::Decl(Decl::Class { members, span }) => found_in_members(
            members@,
            members@.len(),
            None,
            span,
            alias,
        ),
        _ => Seq::empty(),
    }
}

/// The queries below the first `n` of `stmts`.
pub open spec fn found_in_stmts(stmts: Seq<Stmt>, n: nat, alias: String) -> Seq<SQL>
    decreases stmts, n,
{
    if n == 0 || n > stmts.len() {
        Seq::empty()
    } else {
        found_in_stmts(stmts, (n - 1) as nat, alias) + found_in_stmt(stmts[n - 1], alias)
    }
}

/// The queries below the statements of the first `n` cases of a `switch`.
pub open spec fn found_in_cases(cases: Seq<Vec<Stmt>>, n: nat, alias: String) -> Seq<SQL>
    decreases cases, n,
{
    if n == 0 || n > cases.len() {
        Seq::empty()
    } else {
        found_in_cases(cases, (n - 1) as nat, alias) + found_in_stmts(
            cases[n - 1]@,
            cases[n - 1]@.len(),
            alias,
        )
    }
}

/// The queries below the initial value of one name of a variable
/// declaration, under the name that its pattern gives.
pub open spec fn found_in_var_decl(decl: VarDeclarator, span: Span, alias: String) -> Seq<SQL>
    decreases decl, 0nat,
{
    match decl.init {
        Some(init) => found_in_expr(*init, pattern_name(decl.name), span, alias),
        None => Seq::empty(),
    }
}

/// The queries below the first `n` names of a variable declaration.
pub open spec fn found_in_var_decls(
    decls: Seq<VarDeclarator>,
    n: nat,
    span: Span,
    alias: String,
) -> Seq<SQL>
    decreases decls, n,
{
    if n == 0 || n > decls.len() {
        Seq::empty()
    } else {
        found_in_var_decls(decls, (n - 1) as nat, span, alias) + found_in_var_decl(
            decls[n - 1],
            span,
            alias,
        )
    }
}

} // verus!
