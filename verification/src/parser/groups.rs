//! The queries that the search finds come in groups, one group for each
//! tagged template that the search reaches. This module counts the tagged
//! templates of a tree, those that stand where the search does not look
//! among them, and relates the groups to what is found. The tree is the
//! one that is kept: what it leaves out of the source, such as the body of
//! a function expression, is not counted.

use crate::common::sql::{Span, SQL};
use crate::parser::ast::{
    ArrowBody, BlockStmt, ClassMember, Decl, Expr, OptChainBase, Pat, Prop, Stmt, VarDeclarator,
};
use crate::parser::found::{
    found_in_block, found_in_body, found_in_cases, found_in_elems, found_in_expr,
    found_in_exprs, found_in_members, found_in_params, found_in_props, found_in_stmt,
    found_in_stmts, found_in_var_decl, found_in_var_decls, key_name, pattern_name, tag_matches,
    template_sqls,
};
use vstd::prelude::*;
use vstd::seq_lib::lemma_flatten_concat;

verus! {

/// What a part of a tree holds.
pub struct Tally {
    /// How many tagged templates with a matching tag stand in the part,
    /// wherever they stand.
    pub templates: nat,
    /// How many of them stand where the search does not look: below the
    /// callee of a call with arguments, below a tag, or below the
    /// interpolations of a template whose tag does not match.
    pub hidden: nat,
    /// The queries of each of the others, in the order of the source.
    pub groups: Seq<Seq<SQL>>,
}

/// The tally of a part without tagged templates.
pub open spec fn nothing() -> Tally {
    Tally { templates: 0, hidden: 0, groups: Seq::empty() }
}

/// The tally of one tagged template that the search reaches.
pub open spec fn one(group: Seq<SQL>) -> Tally {
    Tally { templates: 1, hidden: 0, groups: seq![group] }
}

/// The tally of two parts, the second after the first.
pub open spec fn plus(a: Tally, b: Tally) -> Tally {
    Tally {
        templates: a.templates + b.templates,
        hidden: a.hidden + b.hidden,
        groups: a.groups + b.groups,
    }
}

/// The tally of a part where the search does not look.
pub open spec fn unseen(a: Tally) -> Tally {
    Tally { templates: a.templates, hidden: a.templates, groups: Seq::empty() }
}

/// Whether `group` holds the queries of one tagged template.
pub open spec fn is_template_group(group: Seq<SQL>, alias: String) -> bool {
    exists|quasis: Seq<String>, name: Option<String>, span: Span|
        group == #[trigger] template_sqls(quasis, name, span, alias)
}

/// Whether `tally` accounts for `found`: its groups, one after the other,
/// are `found`; each group is that of one tagged template; and the
/// templates are those of the groups and the hidden ones.
pub open spec fn accounts_for(tally: Tally, found: Seq<SQL>, alias: String) -> bool {
    &&& tally.groups.flatten() == found
    &&& tally.groups.len() + tally.hidden == tally.templates
    &&& forall|i: int|
        0 <= i < tally.groups.len() ==> is_template_group(#[trigger] tally.groups[i], alias)
}

/// The tally of an expression.
pub open spec fn tally_expr(e: Expr, name: Option<String>, span: Span, alias: String) -> Tally
    decreases e, 0nat,
{
    match e {
        Expr::TaggedTpl { tag, quasis, exprs } => if tag_matches(*tag, alias) {
            plus(
                one(template_sqls(quasis@, name, span, alias)),
                tally_exprs(exprs@, exprs@.len(), name, span, alias),
            )
        } else {
            plus(
                unseen(tally_expr(*tag, name, span, alias)),
                unseen(tally_exprs(exprs@, exprs@.len(), name, span, alias)),
            )
        },
        Expr::TsNonNull(inner) | Expr::TsTypeAssertion(inner) | Expr::TsConstAssertion(inner)
        | Expr::TsAs(inner) | Expr::TsSatisfies(inner) | Expr::Paren(inner) | Expr::Unary(inner)
        | Expr::Update(inner) | Expr::Assign(inner) | Expr::Member(inner) | Expr::Await(
            inner,
        ) => tally_expr(*inner, name, span, alias),
        Expr::Call { callee, args } => plus(
            match callee {
                Some(callee) => if args@.len() == 0 {
                    tally_expr(*callee, name, span, alias)
                } else {
                    unseen(tally_expr(*callee, name, span, alias))
                },
                None => nothing(),
            },
            tally_exprs(args@, args@.len(), name, span, alias),
        ),
        Expr::Array(elems) => tally_elems(elems@, elems@.len(), name, span, alias),
        Expr::Object(props) => tally_props(props@, props@.len(), name, span, alias),
        Expr::Bin(left, right) => plus(
            tally_expr(*left, name, span, alias),
            tally_expr(*right, name, span, alias),
        ),
        Expr::SuperProp(Some(computed)) | Expr::Yield(Some(computed)) => tally_expr(
            *computed,
            name,
            span,
            alias,
        ),
        Expr::Cond(test, cons, alt) => plus(
            plus(tally_expr(*test, name, span, alias), tally_expr(*cons, name, span, alias)),
            tally_expr(*alt, name, span, alias),
        ),
        Expr::New { callee, args } => plus(
            tally_expr(*callee, name, span, alias),
            match args {
                Some(args) => tally_exprs(args@, args@.len(), name, span, alias),
                None => nothing(),
            },
        ),
        Expr::Sequence(exprs) | Expr::Tpl(exprs) => tally_exprs(
            exprs@,
            exprs@.len(),
            name,
            span,
            alias,
        ),
        Expr::Arrow { params, body } => plus(
            tally_params(params@, params@.len(), name, span, alias),
            match body {
                ArrowBody::Block(block) => tally_body(
                    block.stmts@,
                    block.stmts@.len(),
                    name,
                    span,
                    alias,
                ),
                ArrowBody::Expr(value) => tally_expr(*value, name, span, alias),
            },
        ),
        Expr::Class(members) => tally_members(members@, members@.len(), name, span, alias),
        Expr::OptChain(OptChainBase::Member(object)) => tally_expr(*object, name, span, alias),
        Expr::OptChain(OptChainBase::Call { callee, args }) => plus(
            tally_expr(*callee, name, span, alias),
            tally_exprs(args@, args@.len(), name, span, alias),
        ),
        _ => nothing(),
    }
}

/// The tally of the first `n` of `exprs`.
pub open spec fn tally_exprs(
    exprs: Seq<Expr>,
    n: nat,
    name: Option<String>,
    span: Span,
    alias: String,
) -> Tally
    decreases exprs, n,
{
    if n == 0 || n > exprs.len() {
        nothing()
    } else {
        plus(
            tally_exprs(exprs, (n - 1) as nat, name, span, alias),
            tally_expr(exprs[n - 1], name, span, alias),
        )
    }
}

/// The tally of the first `n` elements of an array literal.
pub open spec fn tally_elems(
    elems: Seq<Option<Expr>>,
    n: nat,
    name: Option<String>,
    span: Span,
    alias: String,
) -> Tally
    decreases elems, n,
{
    if n == 0 || n > elems.len() {
        nothing()
    } else {
        plus(
            tally_elems(elems, (n - 1) as nat, name, span, alias),
            match elems[n - 1] {
                Some(elem) => tally_expr(elem, name, span, alias),
                None => nothing(),
            },
        )
    }
}

/// The tally of the first `n` properties of an object literal.
pub open spec fn tally_props(
    props: Seq<Prop>,
    n: nat,
    name: Option<String>,
    span: Span,
    alias: String,
) -> Tally
    decreases props, n,
{
    if n == 0 || n > props.len() {
        nothing()
    } else {
        plus(
            tally_props(props, (n - 1) as nat, name, span, alias),
            match props[n - 1] {
                Prop::KeyValue(value) | Prop::Assign(value) => tally_expr(
                    *value,
                    name,
                    span,
                    alias,
                ),
                Prop::Getter(body) | Prop::Setter(body) | Prop::Method(body) => tally_block(
                    body,
                    name,
                    span,
                    alias,
                ),
                Prop::Spread | Prop::Shorthand => nothing(),
            },
        )
    }
}

/// The tally of the first `n` parameters.
pub open spec fn tally_params(
    params: Seq<Pat>,
    n: nat,
    name: Option<String>,
    span: Span,
    alias: String,
) -> Tally
    decreases params, n,
{
    if n == 0 || n > params.len() {
        nothing()
    } else {
        plus(
            tally_params(params, (n - 1) as nat, name, span, alias),
            match params[n - 1] {
                Pat::Assign(value) | Pat::Expr(value) => tally_expr(*value, name, span, alias),
                _ => nothing(),
            },
        )
    }
}

/// The tally of the first `n` members of a class.
pub open spec fn tally_members(
    members: Seq<ClassMember>,
    n: nat,
    name: Option<String>,
    span: Span,
    alias: String,
) -> Tally
    decreases members, n,
{
    if n == 0 || n > members.len() {
        nothing()
    } else {
        plus(
            tally_members(members, (n - 1) as nat, name, span, alias),
            match members[n - 1] {
                ClassMember::Constructor(body) | ClassMember::Method(body)
                | ClassMember::PrivateMethod(body) => tally_block(body, name, span, alias),
                ClassMember::ClassProp(Some(value)) | ClassMember::PrivateProp(
                    Some(value),
                ) => tally_expr(*value, name, span, alias),
                ClassMember::StaticBlock(block) => tally_body(
                    block.stmts@,
                    block.stmts@.len(),
                    name,
                    span,
                    alias,
                ),
                ClassMember::AutoAccessor { key, value: Some(value) } => tally_expr(
                    *value,
                    key_name(key),
                    span,
                    alias,
                ),
                _ => nothing(),
            },
        )
    }
}

/// The tally of a body that may be missing.
pub open spec fn tally_block(
    block: Option<BlockStmt>,
    name: Option<String>,
    span: Span,
    alias: String,
) -> Tally
    decreases block, 0nat,
{
    match block {
        Some(block) => tally_body(block.stmts@, block.stmts@.len(), name, span, alias),
        None => nothing(),
    }
}

/// The tally of the first `n` statements of the body of a function or a
/// class member.
pub open spec fn tally_body(
    stmts: Seq<Stmt>,
    n: nat,
    name: Option<String>,
    span: Span,
    alias: String,
) -> Tally
    decreases stmts, n,
{
    if n == 0 || n > stmts.len() {
        nothing()
    } else {
        plus(
            tally_body(stmts, (n - 1) as nat, name, span, alias),
            match stmts[n - 1] {
                Stmt::Expr { expr, .. } => tally_expr(*expr, name, span, alias),
                other => tally_stmt(other, alias),
            },
        )
    }
}

/// The tally of a statement.
pub open spec fn tally_stmt(stmt: Stmt, alias: String) -> Tally
    decreases stmt, 0nat,
{
    match stmt {
        Stmt::Block(block) => tally_stmts(block.stmts@, block.stmts@.len(), alias),
        Stmt::With(body) | Stmt::Labeled(body) | Stmt::While(body) | Stmt::DoWhile(body)
        | Stmt::For(body) | Stmt::ForIn(body) | Stmt::ForOf(body) => tally_stmt(*body, alias),
        Stmt::Return { arg: Some(arg), span } => tally_expr(*arg, None, span, alias),
        Stmt::Throw { arg, span } => tally_expr(*arg, None, span, alias),
        Stmt::Expr { expr, span } => tally_expr(*expr, None, span, alias),
        Stmt::If { cons, alt } => plus(
            tally_stmt(*cons, alias),
            match alt {
                Some(alt) => tally_stmt(*alt, alias),
                None => nothing(),
            },
        ),
        Stmt::Switch(cases) => tally_cases(cases@, cases@.len(), alias),
        Stmt::Try { block, handler, finalizer } => plus(
            plus(
                tally_stmts(block.stmts@, block.stmts@.len(), alias),
                match handler {
                    Some(handler) => tally_stmts(handler.stmts@, handler.stmts@.len(), alias),
                    None => nothing(),
                },
            ),
            match finalizer {
                Some(finalizer) => tally_stmts(finalizer.stmts@, finalizer.stmts@.len(), alias),
                None => nothing(),
            },
        ),
        Stmt::Decl(Decl::Var { decls, span }) => tally_var_decls(decls@, decls@.len(), span, alias),
        Stmt::Decl(Decl::Fn(Some(body))) => tally_stmts(body.stmts@, body.stmts@.len(), alias),
        Stmt::Decl(Decl::Class { members, span }) => tally_members(
            members@,
            members@.len(),
            None,
            span,
            alias,
        ),
        _ => nothing(),
    }
}

/// The tally of the first `n` of `stmts`.
pub open spec fn tally_stmts(stmts: Seq<Stmt>, n: nat, alias: String) -> Tally
    decreases stmts, n,
{
    if n == 0 || n > stmts.len() {
        nothing()
    } else {
        plus(tally_stmts(stmts, (n - 1) as nat, alias), tally_stmt(stmts[n - 1], alias))
    }
}

/// The tally of the first `n` cases of a `switch`.
pub open spec fn tally_cases(cases: Seq<Vec<Stmt>>, n: nat, alias: String) -> Tally
    decreases cases, n,
{
    if n == 0 || n > cases.len() {
        nothing()
    } else {
        plus(
            tally_cases(cases, (n - 1) as nat, alias),
            tally_stmts(cases[n - 1]@, cases[n - 1]@.len(), alias),
        )
    }
}

/// The tally of one name of a variable declaration.
pub open spec fn tally_var_decl(decl: VarDeclarator, span: Span, alias: String) -> Tally
    decreases decl, 0nat,
{
    match decl.init {
        Some(init) => tally_expr(*init, pattern_name(decl.name), span, alias),
        None => nothing(),
    }
}

/// The tally of the first `n` names of a variable declaration.
pub open spec fn tally_var_decls(
    decls: Seq<VarDeclarator>,
    n: nat,
    span: Span,
    alias: String,
) -> Tally
    decreases decls, n,
{
    if n == 0 || n > decls.len() {
        nothing()
    } else {
        plus(
            tally_var_decls(decls, (n - 1) as nat, span, alias),
            tally_var_decl(decls[n - 1], span, alias),
        )
    }
}

/// Tallies that account for two parts account, added, for the two together.
proof fn lemma_plus(a: Tally, found_a: Seq<SQL>, b: Tally, found_b: Seq<SQL>, alias: String)
    requires
        accounts_for(a, found_a, alias),
        accounts_for(b, found_b, alias),
    ensures
        accounts_for(plus(a, b), found_a + found_b, alias),
{
    lemma_flatten_concat(a.groups, b.groups);
    let groups = plus(a, b).groups;
    assert forall|i: int| 0 <= i < groups.len() implies is_template_group(
        #[trigger] groups[i],
        alias,
    ) by {
        if i < a.groups.len() {
            assert(groups[i] == a.groups[i]);
        } else {
            assert(groups[i] == b.groups[i - a.groups.len()]);
        }
    }
}

/// A part where the search does not look adds nothing to what is found.
proof fn lemma_unseen(a: Tally, alias: String)
    ensures
        accounts_for(unseen(a), Seq::empty(), alias),
        accounts_for(nothing(), Seq::empty(), alias),
{
    assert(Seq::<Seq<SQL>>::empty().flatten() =~= Seq::<SQL>::empty());
}

/// One tagged template accounts for its queries.
proof fn lemma_one(quasis: Seq<String>, name: Option<String>, span: Span, alias: String)
    ensures
        accounts_for(
            one(template_sqls(quasis, name, span, alias)),
            template_sqls(quasis, name, span, alias),
            alias,
        ),
{
    let group = template_sqls(quasis, name, span, alias);
    assert(seq![group].flatten() =~= group) by {
        seq![group].lemma_flatten_one_element();
    }
    assert(is_template_group(group, alias));
}

/// The tally of an expression accounts for what is found below it.
proof fn lemma_expr(e: Expr, name: Option<String>, span: Span, alias: String)
    ensures
        accounts_for(tally_expr(e, name, span, alias), found_in_expr(e, name, span, alias), alias),
    decreases e, 0nat,
{
    let none = Seq::<SQL>::empty();
    lemma_unseen(nothing(), alias);
    match e {
        Expr::TaggedTpl { tag, quasis, exprs } => {
            if tag_matches(*tag, alias) {
                lemma_one(quasis@, name, span, alias);
                lemma_exprs(exprs@, exprs@.len(), name, span, alias);
                lemma_plus(
                    one(template_sqls(quasis@, name, span, alias)),
                    template_sqls(quasis@, name, span, alias),
                    tally_exprs(exprs@, exprs@.len(), name, span, alias),
                    found_in_exprs(exprs@, exprs@.len(), name, span, alias),
                    alias,
                );
            } else {
                let in_tag = unseen(tally_expr(*tag, name, span, alias));
                let in_exprs = unseen(tally_exprs(exprs@, exprs@.len(), name, span, alias));
                lemma_unseen(tally_expr(*tag, name, span, alias), alias);
                lemma_unseen(tally_exprs(exprs@, exprs@.len(), name, span, alias), alias);
                lemma_plus(in_tag, none, in_exprs, none, alias);
                assert(none + none =~= none);
            }
        },
        Expr::TsNonNull(inner) | Expr::TsTypeAssertion(inner) | Expr::TsConstAssertion(inner)
        | Expr::TsAs(inner) | Expr::TsSatisfies(inner) | Expr::Paren(inner) | Expr::Unary(inner)
        | Expr::Update(inner) | Expr::Assign(inner) | Expr::Member(inner) | Expr::Await(inner) => {
            lemma_expr(*inner, name, span, alias);
        },
        Expr::Call { callee, args } => {
            lemma_exprs(args@, args@.len(), name, span, alias);
            let in_args = tally_exprs(args@, args@.len(), name, span, alias);
            let found_args = found_in_exprs(args@, args@.len(), name, span, alias);
            match callee {
                Some(callee) => {
                    if args@.len() == 0 {
                        lemma_expr(*callee, name, span, alias);
                        lemma_plus(
                            tally_expr(*callee, name, span, alias),
                            found_in_expr(*callee, name, span, alias),
                            in_args,
                            found_args,
                            alias,
                        );
                    } else {
                        lemma_unseen(tally_expr(*callee, name, span, alias), alias);
                        lemma_plus(
                            unseen(tally_expr(*callee, name, span, alias)),
                            none,
                            in_args,
                            found_args,
                            alias,
                        );
                    }
                },
                None => {
                    lemma_plus(nothing(), none, in_args, found_args, alias);
                },
            }
        },
        Expr::Array(elems) => {
            lemma_elems(elems@, elems@.len(), name, span, alias);
        },
        Expr::Object(props) => {
            lemma_props(props@, props@.len(), name, span, alias);
        },
        Expr::Bin(left, right) => {
            lemma_expr(*left, name, span, alias);
            lemma_expr(*right, name, span, alias);
            lemma_plus(
                tally_expr(*left, name, span, alias),
                found_in_expr(*left, name, span, alias),
                tally_expr(*right, name, span, alias),
                found_in_expr(*right, name, span, alias),
                alias,
            );
        },
        Expr::SuperProp(Some(computed)) | Expr::Yield(Some(computed)) => {
            lemma_expr(*computed, name, span, alias);
        },
        Expr::Cond(test, cons, alt) => {
            lemma_expr(*test, name, span, alias);
            lemma_expr(*cons, name, span, alias);
            lemma_expr(*alt, name, span, alias);
            lemma_plus(
                tally_expr(*test, name, span, alias),
                found_in_expr(*test, name, span, alias),
                tally_expr(*cons, name, span, alias),
                found_in_expr(*cons, name, span, alias),
                alias,
            );
            lemma_plus(
                plus(tally_expr(*test, name, span, alias), tally_expr(*cons, name, span, alias)),
                found_in_expr(*test, name, span, alias) + found_in_expr(*cons, name, span, alias),
                tally_expr(*alt, name, span, alias),
                found_in_expr(*alt, name, span, alias),
                alias,
            );
        },
        Expr::New { callee, args } => {
            lemma_expr(*callee, name, span, alias);
            match args {
                Some(args) => {
                    lemma_exprs(args@, args@.len(), name, span, alias);
                    lemma_plus(
                        tally_expr(*callee, name, span, alias),
                        found_in_expr(*callee, name, span, alias),
                        tally_exprs(args@, args@.len(), name, span, alias),
                        found_in_exprs(args@, args@.len(), name, span, alias),
                        alias,
                    );
                },
                None => {
                    lemma_plus(
                        tally_expr(*callee, name, span, alias),
                        found_in_expr(*callee, name, span, alias),
                        nothing(),
                        none,
                        alias,
                    );
                },
            }
        },
        Expr::Sequence(exprs) | Expr::Tpl(exprs) => {
            lemma_exprs(exprs@, exprs@.len(), name, span, alias);
        },
        Expr::Arrow { params, body } => {
            lemma_params(params@, params@.len(), name, span, alias);
            let in_params = tally_params(params@, params@.len(), name, span, alias);
            let found_params = found_in_params(params@, params@.len(), name, span, alias);
            match body {
                ArrowBody::Block(block) => {
                    lemma_body(block.stmts@, block.stmts@.len(), name, span, alias);
                    lemma_plus(
                        in_params,
                        found_params,
                        tally_body(block.stmts@, block.stmts@.len(), name, span, alias),
                        found_in_body(block.stmts@, block.stmts@.len(), name, span, alias),
                        alias,
                    );
                },
                ArrowBody::Expr(value) => {
                    lemma_expr(*value, name, span, alias);
                    lemma_plus(
                        in_params,
                        found_params,
                        tally_expr(*value, name, span, alias),
                        found_in_expr(*value, name, span, alias),
                        alias,
                    );
                },
            }
        },
        Expr::Class(members) => {
            lemma_members(members@, members@.len(), name, span, alias);
        },
        Expr::OptChain(OptChainBase::Member(object)) => {
            lemma_expr(*object, name, span, alias);
        },
        Expr::OptChain(OptChainBase::Call { callee, args }) => {
            lemma_expr(*callee, name, span, alias);
            lemma_exprs(args@, args@.len(), name, span, alias);
            lemma_plus(
                tally_expr(*callee, name, span, alias),
                found_in_expr(*callee, name, span, alias),
                tally_exprs(args@, args@.len(), name, span, alias),
                found_in_exprs(args@, args@.len(), name, span, alias),
                alias,
            );
        },
        _ => {},
    }
}

/// The tally of the first `n` of `exprs` accounts for what is found there.
proof fn lemma_exprs(exprs: Seq<Expr>, n: nat, name: Option<String>, span: Span, alias: String)
    ensures
        accounts_for(
            tally_exprs(exprs, n, name, span, alias),
            found_in_exprs(exprs, n, name, span, alias),
            alias,
        ),
    decreases exprs, n,
{
    if n == 0 || n > exprs.len() {
        lemma_unseen(nothing(), alias);
    } else {
        lemma_exprs(exprs, (n - 1) as nat, name, span, alias);
        let last = exprs[n - 1];
        lemma_expr(last, name, span, alias);
        lemma_plus(
            tally_exprs(exprs, (n - 1) as nat, name, span, alias),
            found_in_exprs(exprs, (n - 1) as nat, name, span, alias),
            tally_expr(last, name, span, alias),
            found_in_expr(last, name, span, alias),
            alias,
        );
    }
}

/// The tally of the first `n` of `elems` accounts for what is found there.
proof fn lemma_elems(elems: Seq<Option<Expr>>, n: nat, name: Option<String>, span: Span, alias: String)
    ensures
        accounts_for(
            tally_elems(elems, n, name, span, alias),
            found_in_elems(elems, n, name, span, alias),
            alias,
        ),
    decreases elems, n,
{
    if n == 0 || n > elems.len() {
        lemma_unseen(nothing(), alias);
    } else {
        lemma_elems(elems, (n - 1) as nat, name, span, alias);
        let last = elems[n - 1];
        match last {
            Some(elem) => {
                lemma_expr(elem, name, span, alias);
                lemma_plus(
                    tally_elems(elems, (n - 1) as nat, name, span, alias),
                    found_in_elems(elems, (n - 1) as nat, name, span, alias),
                    tally_expr(elem, name, span, alias),
                    found_in_expr(elem, name, span, alias),
                    alias,
                );
            },
            None => {
                lemma_unseen(nothing(), alias);
                lemma_plus(
                    tally_elems(elems, (n - 1) as nat, name, span, alias),
                    found_in_elems(elems, (n - 1) as nat, name, span, alias),
                    nothing(),
                    Seq::empty(),
                    alias,
                );
            },
        }
    }
}

/// The tally of the first `n` of `props` accounts for what is found there.
proof fn lemma_props(props: Seq<Prop>, n: nat, name: Option<String>, span: Span, alias: String)
    ensures
        accounts_for(
            tally_props(props, n, name, span, alias),
            found_in_props(props, n, name, span, alias),
            alias,
        ),
    decreases props, n,
{
    if n == 0 || n > props.len() {
        lemma_unseen(nothing(), alias);
    } else {
        lemma_props(props, (n - 1) as nat, name, span, alias);
        let last = props[n - 1];
        lemma_unseen(nothing(), alias);
        match last {
            Prop::KeyValue(value) | Prop::Assign(value) => {
                lemma_expr(*value, name, span, alias);
                lemma_plus(
                    tally_props(props, (n - 1) as nat, name, span, alias),
                    found_in_props(props, (n - 1) as nat, name, span, alias),
                    tally_expr(*value, name, span, alias),
                    found_in_expr(*value, name, span, alias),
                    alias,
                );
            },
            Prop::Getter(body) | Prop::Setter(body) | Prop::Method(body) => {
                lemma_block(body, name, span, alias);
                lemma_plus(
                    tally_props(props, (n - 1) as nat, name, span, alias),
                    found_in_props(props, (n - 1) as nat, name, span, alias),
                    tally_block(body, name, span, alias),
                    found_in_block(body, name, span, alias),
                    alias,
                );
            },
            Prop::Spread | Prop::Shorthand => {
                lemma_plus(
                    tally_props(props, (n - 1) as nat, name, span, alias),
                    found_in_props(props, (n - 1) as nat, name, span, alias),
                    nothing(),
                    Seq::empty(),
                    alias,
                );
            },
        }
    }
}

/// The tally of the first `n` of `params` accounts for what is found there.
proof fn lemma_params(params: Seq<Pat>, n: nat, name: Option<String>, span: Span, alias: String)
    ensures
        accounts_for(
            tally_params(params, n, name, span, alias),
            found_in_params(params, n, name, span, alias),
            alias,
        ),
    decreases params, n,
{
    if n == 0 || n > params.len() {
        lemma_unseen(nothing(), alias);
    } else {
        lemma_params(params, (n - 1) as nat, name, span, alias);
        let last = params[n - 1];
        lemma_unseen(nothing(), alias);
        match last {
            Pat::Assign(value) | Pat::Expr(value) => {
                lemma_expr(*value, name, span, alias);
                lemma_plus(
                    tally_params(params, (n - 1) as nat, name, span, alias),
                    found_in_params(params, (n - 1) as nat, name, span, alias),
                    tally_expr(*value, name, span, alias),
                    found_in_expr(*value, name, span, alias),
                    alias,
                );
            },
            _ => {
                lemma_plus(
                    tally_params(params, (n - 1) as nat, name, span, alias),
                    found_in_params(params, (n - 1) as nat, name, span, alias),
                    nothing(),
                    Seq::empty(),
                    alias,
                );
            },
        }
    }
}

/// The tally of the first `n` of `members` accounts for what is found there.
proof fn lemma_members(members: Seq<ClassMember>, n: nat, name: Option<String>, span: Span, alias: String)
    ensures
        accounts_for(
            tally_members(members, n, name, span, alias),
            found_in_members(members, n, name, span, alias),
            alias,
        ),
    decreases members, n,
{
    if n == 0 || n > members.len() {
        lemma_unseen(nothing(), alias);
    } else {
        lemma_members(members, (n - 1) as nat, name, span, alias);
        let last = members[n - 1];
        lemma_unseen(nothing(), alias);
        match last {
            ClassMember::Constructor(body) | ClassMember::Method(body) | ClassMember::PrivateMethod(body) => {
                lemma_block(body, name, span, alias);
                lemma_plus(
                    tally_members(members, (n - 1) as nat, name, span, alias),
                    found_in_members(members, (n - 1) as nat, name, span, alias),
                    tally_block(body, name, span, alias),
                    found_in_block(body, name, span, alias),
                    alias,
                );
            },
            ClassMember::ClassProp(Some(value)) | ClassMember::PrivateProp(Some(value)) => {
                lemma_expr(*value, name, span, alias);
                lemma_plus(
                    tally_members(members, (n - 1) as nat, name, span, alias),
                    found_in_members(members, (n - 1) as nat, name, span, alias),
                    tally_expr(*value, name, span, alias),
                    found_in_expr(*value, name, span, alias),
                    alias,
                );
            },
            ClassMember::StaticBlock(block) => {
                lemma_body(block.stmts@, block.stmts@.len(), name, span, alias);
                lemma_plus(
                    tally_members(members, (n - 1) as nat, name, span, alias),
                    found_in_members(members, (n - 1) as nat, name, span, alias),
                    tally_body(block.stmts@, block.stmts@.len(), name, span, alias),
                    found_in_body(block.stmts@, block.stmts@.len(), name, span, alias),
                    alias,
                );
            },
            ClassMember::AutoAccessor { key, value: Some(value) } => {
                lemma_expr(*value, key_name(key), span, alias);
                lemma_plus(
                    tally_members(members, (n - 1) as nat, name, span, alias),
                    found_in_members(members, (n - 1) as nat, name, span, alias),
                    tally_expr(*value, key_name(key), span, alias),
                    found_in_expr(*value, key_name(key), span, alias),
                    alias,
                );
            },
            _ => {
                lemma_plus(
                    tally_members(members, (n - 1) as nat, name, span, alias),
                    found_in_members(members, (n - 1) as nat, name, span, alias),
                    nothing(),
                    Seq::empty(),
                    alias,
                );
            },
        }
    }
}

/// The tally of a body that may be missing accounts for what is found in it.
proof fn lemma_block(block: Option<BlockStmt>, name: Option<String>, span: Span, alias: String)
    ensures
        accounts_for(
            tally_block(block, name, span, alias),
            found_in_block(block, name, span, alias),
            alias,
        ),
    decreases block, 0nat,
{
    match block {
        Some(block) => {
            lemma_body(block.stmts@, block.stmts@.len(), name, span, alias);
        },
        None => {
            lemma_unseen(nothing(), alias);
        },
    }
}

/// The tally of the first `n` of `body` accounts for what is found there.
proof fn lemma_body(body: Seq<Stmt>, n: nat, name: Option<String>, span: Span, alias: String)
    ensures
        accounts_for(
            tally_body(body, n, name, span, alias),
            found_in_body(body, n, name, span, alias),
            alias,
        ),
    decreases body, n,
{
    if n == 0 || n > body.len() {
        lemma_unseen(nothing(), alias);
    } else {
        lemma_body(body, (n - 1) as nat, name, span, alias);
        let last = body[n - 1];
        lemma_unseen(nothing(), alias);
        match last {
            Stmt::Expr { expr, .. } => {
                lemma_expr(*expr, name, span, alias);
                lemma_plus(
                    tally_body(body, (n - 1) as nat, name, span, alias),
                    found_in_body(body, (n - 1) as nat, name, span, alias),
                    tally_expr(*expr, name, span, alias),
                    found_in_expr(*expr, name, span, alias),
                    alias,
                );
            },
            other => {
                lemma_stmt(other, alias);
                lemma_plus(
                    tally_body(body, (n - 1) as nat, name, span, alias),
                    found_in_body(body, (n - 1) as nat, name, span, alias),
                    tally_stmt(other, alias),
                    found_in_stmt(other, alias),
                    alias,
                );
            },
        }
    }
}

/// The tally of a statement accounts for what is found below it.
proof fn lemma_stmt(stmt: Stmt, alias: String)
    ensures
        accounts_for(tally_stmt(stmt, alias), found_in_stmt(stmt, alias), alias),
    decreases stmt, 0nat,
{
    let none = Seq::<SQL>::empty();
    lemma_unseen(nothing(), alias);
    match stmt {
        Stmt::Block(block) => {
            lemma_stmts(block.stmts@, block.stmts@.len(), alias);
        },
        Stmt::With(body) | Stmt::Labeled(body) | Stmt::While(body) | Stmt::DoWhile(body)
        | Stmt::For(body) | Stmt::ForIn(body) | Stmt::ForOf(body) => {
            lemma_stmt(*body, alias);
        },
        Stmt::Return { arg: Some(arg), span } => {
            lemma_expr(*arg, None, span, alias);
        },
        Stmt::Throw { arg, span } => {
            lemma_expr(*arg, None, span, alias);
        },
        Stmt::Expr { expr, span } => {
            lemma_expr(*expr, None, span, alias);
        },
        Stmt::If { cons, alt } => {
            lemma_stmt(*cons, alias);
            match alt {
                Some(alt) => {
                    lemma_stmt(*alt, alias);
                    lemma_plus(
                        tally_stmt(*cons, alias),
                        found_in_stmt(*cons, alias),
                        tally_stmt(*alt, alias),
                        found_in_stmt(*alt, alias),
                        alias,
                    );
                },
                None => {
                    lemma_plus(
                        tally_stmt(*cons, alias),
                        found_in_stmt(*cons, alias),
                        nothing(),
                        none,
                        alias,
                    );
                },
            }
        },
        Stmt::Switch(cases) => {
            lemma_cases(cases@, cases@.len(), alias);
        },
        Stmt::Try { block, handler, finalizer } => {
            lemma_stmts(block.stmts@, block.stmts@.len(), alias);
            let in_block = tally_stmts(block.stmts@, block.stmts@.len(), alias);
            let found_block = found_in_stmts(block.stmts@, block.stmts@.len(), alias);
            let in_handler = match handler {
                Some(handler) => tally_stmts(handler.stmts@, handler.stmts@.len(), alias),
                None => nothing(),
            };
            let found_handler = match handler {
                Some(handler) => found_in_stmts(handler.stmts@, handler.stmts@.len(), alias),
                None => none,
            };
            let in_finalizer = match finalizer {
                Some(finalizer) => tally_stmts(finalizer.stmts@, finalizer.stmts@.len(), alias),
                None => nothing(),
            };
            let found_finalizer = match finalizer {
                Some(finalizer) => found_in_stmts(finalizer.stmts@, finalizer.stmts@.len(), alias),
                None => none,
            };
            if let Some(handler) = handler {
                lemma_stmts(handler.stmts@, handler.stmts@.len(), alias);
            }
            if let Some(finalizer) = finalizer {
                lemma_stmts(finalizer.stmts@, finalizer.stmts@.len(), alias);
            }
            lemma_plus(in_block, found_block, in_handler, found_handler, alias);
            lemma_plus(
                plus(in_block, in_handler),
                found_block + found_handler,
                in_finalizer,
                found_finalizer,
                alias,
            );
        },
        Stmt::Decl(Decl::Var { decls, span }) => {
            lemma_var_decls(decls@, decls@.len(), span, alias);
        },
        Stmt::Decl(Decl::Fn(Some(body))) => {
            lemma_stmts(body.stmts@, body.stmts@.len(), alias);
        },
        Stmt::Decl(Decl::Class { members, span }) => {
            lemma_members(members@, members@.len(), None, span, alias);
        },
        _ => {},
    }
}

/// The tally of the first `n` of `stmts` accounts for what is found there.
proof fn lemma_stmts(stmts: Seq<Stmt>, n: nat, alias: String)
    ensures
        accounts_for(
            tally_stmts(stmts, n, alias),
            found_in_stmts(stmts, n, alias),
            alias,
        ),
    decreases stmts, n,
{
    if n == 0 || n > stmts.len() {
        lemma_unseen(nothing(), alias);
    } else {
        lemma_stmts(stmts, (n - 1) as nat, alias);
        let last = stmts[n - 1];
        lemma_stmt(last, alias);
        lemma_plus(
            tally_stmts(stmts, (n - 1) as nat, alias),
            found_in_stmts(stmts, (n - 1) as nat, alias),
            tally_stmt(last, alias),
            found_in_stmt(last, alias),
            alias,
        );
    }
}

/// The tally of the first `n` of `cases` accounts for what is found there.
proof fn lemma_cases(cases: Seq<Vec<Stmt>>, n: nat, alias: String)
    ensures
        accounts_for(
            tally_cases(cases, n, alias),
            found_in_cases(cases, n, alias),
            alias,
        ),
    decreases cases, n,
{
    if n == 0 || n > cases.len() {
        lemma_unseen(nothing(), alias);
    } else {
        lemma_cases(cases, (n - 1) as nat, alias);
        let last = cases[n - 1];
        lemma_stmts(last@, last@.len(), alias);
        lemma_plus(
            tally_cases(cases, (n - 1) as nat, alias),
            found_in_cases(cases, (n - 1) as nat, alias),
            tally_stmts(last@, last@.len(), alias),
            found_in_stmts(last@, last@.len(), alias),
            alias,
        );
    }
}

/// The tally of one name of a variable declaration accounts for what is
/// found below its initial value.
proof fn lemma_var_decl(decl: VarDeclarator, span: Span, alias: String)
    ensures
        accounts_for(tally_var_decl(decl, span, alias), found_in_var_decl(decl, span, alias), alias),
    decreases decl, 0nat,
{
    match decl.init {
        Some(init) => {
            lemma_expr(*init, pattern_name(decl.name), span, alias);
        },
        None => {
            lemma_unseen(nothing(), alias);
        },
    }
}

/// The tally of the first `n` of `var_decls` accounts for what is found there.
proof fn lemma_var_decls(var_decls: Seq<VarDeclarator>, n: nat, span: Span, alias: String)
    ensures
        accounts_for(
            tally_var_decls(var_decls, n, span, alias),
            found_in_var_decls(var_decls, n, span, alias),
            alias,
        ),
    decreases var_decls, n,
{
    if n == 0 || n > var_decls.len() {
        lemma_unseen(nothing(), alias);
    } else {
        lemma_var_decls(var_decls, (n - 1) as nat, span, alias);
        let last = var_decls[n - 1];
        lemma_var_decl(last, span, alias);
        lemma_plus(
            tally_var_decls(var_decls, (n - 1) as nat, span, alias),
            found_in_var_decls(var_decls, (n - 1) as nat, span, alias),
            tally_var_decl(last, span, alias),
            found_in_var_decl(last, span, alias),
            alias,
        );
    }
}

/// The search finds one group of queries for each tagged template with a
/// matching tag in a statement, in the order of the source, and nothing
/// else, as long as none of the templates stands where the search does not
/// look.
pub proof fn lemma_groups_of_stmt(stmt: Stmt, alias: String)
    requires
        tally_stmt(stmt, alias).hidden == 0,
    ensures
        tally_stmt(stmt, alias).groups.len() == tally_stmt(stmt, alias).templates,
        tally_stmt(stmt, alias).groups.flatten() == found_in_stmt(stmt, alias),
        forall|i: int|
            0 <= i < tally_stmt(stmt, alias).groups.len() ==> is_template_group(
                #[trigger] tally_stmt(stmt, alias).groups[i],
                alias,
            ),
{
    lemma_stmt(stmt, alias);
}

/// The same for an expression.
pub proof fn lemma_groups_of_expr(e: Expr, name: Option<String>, span: Span, alias: String)
    requires
        tally_expr(e, name, span, alias).hidden == 0,
    ensures
        tally_expr(e, name, span, alias).groups.len() == tally_expr(e, name, span, alias).templates,
        tally_expr(e, name, span, alias).groups.flatten() == found_in_expr(e, name, span, alias),
        forall|i: int|
            0 <= i < tally_expr(e, name, span, alias).groups.len() ==> is_template_group(
                #[trigger] tally_expr(e, name, span, alias).groups[i],
                alias,
            ),
{
    lemma_expr(e, name, span, alias);
}

/// In a statement that holds no tagged template with a matching tag, as in
/// the declarations that are written for a query, the search finds nothing.
pub proof fn lemma_nothing_without_templates(stmt: Stmt, alias: String)
    requires
        tally_stmt(stmt, alias).templates == 0,
    ensures
        found_in_stmt(stmt, alias) == Seq::<SQL>::empty(),
{
    lemma_stmt(stmt, alias);
    assert(tally_stmt(stmt, alias).groups =~= Seq::<Seq<SQL>>::empty());
}

/// The same for an expression.
pub proof fn lemma_nothing_without_templates_in_expr(
    e: Expr,
    name: Option<String>,
    span: Span,
    alias: String,
)
    requires
        tally_expr(e, name, span, alias).templates == 0,
    ensures
        found_in_expr(e, name, span, alias) == Seq::<SQL>::empty(),
{
    lemma_expr(e, name, span, alias);
    assert(tally_expr(e, name, span, alias).groups =~= Seq::<Seq<SQL>>::empty());
}

} // verus!
