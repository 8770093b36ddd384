//! Below an expression the search carries one binding name and one span.
//! They change in two places only: the value of an auto-accessor is
//! searched under the name of its key, and a statement of a body that is no
//! expression statement is searched on its own. Where neither place holds
//! a tagged template, what is found is settled by the raw texts of the
//! templates that the search reaches, whatever stands around them: a
//! template deep in a class gives the queries that it gives at top level.

use crate::common::sql::{Span, SQL};
use crate::parser::ast::{
    ArrowBody, BlockStmt, ClassMember, Expr, OptChainBase, Pat, Prop, Stmt,
};
use crate::parser::found::{
    found_in_block, found_in_body, found_in_elems, found_in_expr, found_in_exprs,
    found_in_members, found_in_params, found_in_props, key_name, tag_matches, template_sqls,
};
use crate::parser::groups::{
    lemma_nothing_without_templates, lemma_nothing_without_templates_in_expr, tally_expr,
    tally_stmt,
};
use vstd::prelude::*;

verus! {

/// The queries of templates with the raw texts `texts`, one template after
/// the other, all under the name `name` and the span `span`.
pub open spec fn labelled(
    texts: Seq<Seq<String>>,
    name: Option<String>,
    span: Span,
    alias: String,
) -> Seq<SQL>
    decreases texts.len(),
{
    if texts.len() == 0 {
        Seq::empty()
    } else {
        labelled(texts.drop_last(), name, span, alias) + template_sqls(
            texts.last(),
            name,
            span,
            alias,
        )
    }
}

/// The queries of two runs of templates are those of the first run, then
/// those of the second.
proof fn lemma_labelled_concat(
    a: Seq<Seq<String>>,
    b: Seq<Seq<String>>,
    name: Option<String>,
    span: Span,
    alias: String,
)
    ensures
        labelled(a + b, name, span, alias) == labelled(a, name, span, alias) + labelled(
            b,
            name,
            span,
            alias,
        ),
    decreases b.len(),
{
    if b.len() == 0 {
        assert(a + b =~= a);
        assert(labelled(a, name, span, alias) + Seq::<SQL>::empty() =~= labelled(
            a,
            name,
            span,
            alias,
        ));
    } else {
        lemma_labelled_concat(a, b.drop_last(), name, span, alias);
        assert((a + b).drop_last() =~= a + b.drop_last());
        assert((a + b).last() == b.last());
        assert(labelled(a + b, name, span, alias) =~= labelled(a, name, span, alias) + labelled(
            b,
            name,
            span,
            alias,
        ));
    }
}

/// One template gives its own queries.
proof fn lemma_labelled_one(texts: Seq<String>, name: Option<String>, span: Span, alias: String)
    ensures
        labelled(seq![texts], name, span, alias) == template_sqls(texts, name, span, alias),
        labelled(Seq::empty(), name, span, alias) == Seq::<SQL>::empty(),
{
    let one = seq![texts];
    assert(one.len() == 1);
    assert(one.drop_last().len() == 0);
    assert(one.last() == texts);
    assert(labelled(one.drop_last(), name, span, alias) =~= Seq::<SQL>::empty());
    assert(labelled(one, name, span, alias) =~= template_sqls(texts, name, span, alias));
}

/// The raw texts of each tagged template that the search reaches below an
/// expression under the name and span that it began with, in the order of
/// the source.
pub open spec fn texts_in_expr(e: Expr, alias: String) -> Seq<Seq<String>>
    decreases e, 0nat,
{
    match e {
        Expr::TaggedTpl { tag, quasis, exprs } => if tag_matches(*tag, alias) {
            seq![quasis@] + texts_in_exprs(exprs@, exprs@.len(), alias)
        } else {
            Seq::empty()
        },
        Expr::TsNonNull(inner) | Expr::TsTypeAssertion(inner) | Expr::TsConstAssertion(inner)
        | Expr::TsAs(inner) | Expr::TsSatisfies(inner) | Expr::Paren(inner) | Expr::Unary(inner)
        | Expr::Update(inner) | Expr::Assign(inner) | Expr::Member(inner) | Expr::Await(
            inner,
        ) => texts_in_expr(*inner, alias),
        Expr::Call { callee, args } => (match callee {
            Some(callee) if args@.len() == 0 => texts_in_expr(*callee, alias),
            _ => Seq::empty(),
        }) + texts_in_exprs(args@, args@.len(), alias),
        Expr::Array(elems) => texts_in_elems(elems@, elems@.len(), alias),
        Expr::Object(props) => texts_in_props(props@, props@.len(), alias),
        Expr::Bin(left, right) => texts_in_expr(*left, alias) + texts_in_expr(*right, alias),
        Expr::SuperProp(Some(computed)) | Expr::Yield(Some(computed)) => texts_in_expr(
            *computed,
            alias,
        ),
        Expr::Cond(test, cons, alt) => texts_in_expr(*test, alias) + texts_in_expr(*cons, alias)
            + texts_in_expr(*alt, alias),
        Expr::New { callee, args } => texts_in_expr(*callee, alias) + (match args {
            Some(args) => texts_in_exprs(args@, args@.len(), alias),
            None => Seq::empty(),
        }),
        Expr::Sequence(exprs) | Expr::Tpl(exprs) => texts_in_exprs(exprs@, exprs@.len(), alias),
        Expr::Arrow { params, body } => texts_in_params(params@, params@.len(), alias) + (match body {
            ArrowBody::Block(block) => texts_in_body(block.stmts@, block.stmts@.len(), alias),
            ArrowBody::Expr(value) => texts_in_expr(*value, alias),
        }),
        Expr::Class(members) => texts_in_members(members@, members@.len(), alias),
        Expr::OptChain(OptChainBase::Member(object)) => texts_in_expr(*object, alias),
        Expr::OptChain(OptChainBase::Call { callee, args }) => texts_in_expr(*callee, alias)
            + texts_in_exprs(args@, args@.len(), alias),
        _ => Seq::empty(),
    }
}

/// The raw texts reached below the first `n` of `exprs`.
pub open spec fn texts_in_exprs(exprs: Seq<Expr>, n: nat, alias: String) -> Seq<Seq<String>>
    decreases exprs, n,
{
    if n == 0 || n > exprs.len() {
        Seq::empty()
    } else {
        texts_in_exprs(exprs, (n - 1) as nat, alias) + (texts_in_expr(exprs[n - 1], alias))
    }
}

/// The raw texts reached below the first `n` elements of an array literal.
pub open spec fn texts_in_elems(elems: Seq<Option<Expr>>, n: nat, alias: String) -> Seq<Seq<String>>
    decreases elems, n,
{
    if n == 0 || n > elems.len() {
        Seq::empty()
    } else {
        texts_in_elems(elems, (n - 1) as nat, alias) + (match elems[n - 1] {
            Some(elem) => texts_in_expr(elem, alias),
            None => Seq::empty(),
        })
    }
}

/// The raw texts reached below the first `n` properties of an object literal.
pub open spec fn texts_in_props(props: Seq<Prop>, n: nat, alias: String) -> Seq<Seq<String>>
    decreases props, n,
{
    if n == 0 || n > props.len() {
        Seq::empty()
    } else {
        texts_in_props(props, (n - 1) as nat, alias) + (match props[n - 1] {
            Prop::KeyValue(value) | Prop::Assign(value) => texts_in_expr(*value, alias),
            Prop::Getter(body) | Prop::Setter(body) | Prop::Method(body) => texts_in_block(
                body,
                alias,
            ),
            Prop::Spread | Prop::Shorthand => Seq::empty(),
        })
    }
}

/// The raw texts reached below the first `n` parameters.
pub open spec fn texts_in_params(params: Seq<Pat>, n: nat, alias: String) -> Seq<Seq<String>>
    decreases params, n,
{
    if n == 0 || n > params.len() {
        Seq::empty()
    } else {
        texts_in_params(params, (n - 1) as nat, alias) + (match params[n - 1] {
            Pat::Assign(value) | Pat::Expr(value) => texts_in_expr(*value, alias),
            _ => Seq::empty(),
        })
    }
}

/// The raw texts reached below the first `n` members of a class, the values of auto-accessors aside.
pub open spec fn texts_in_members(members: Seq<ClassMember>, n: nat, alias: String) -> Seq<Seq<String>>
    decreases members, n,
{
    if n == 0 || n > members.len() {
        Seq::empty()
    } else {
        texts_in_members(members, (n - 1) as nat, alias) + (match members[n - 1] {
            ClassMember::Constructor(body) | ClassMember::Method(body)
            | ClassMember::PrivateMethod(body) => texts_in_block(body, alias),
            ClassMember::ClassProp(Some(value)) | ClassMember::PrivateProp(
                Some(value),
            ) => texts_in_expr(*value, alias),
            ClassMember::StaticBlock(block) => texts_in_body(
                block.stmts@,
                block.stmts@.len(),
                alias,
            ),
            _ => Seq::empty(),
        })
    }
}

/// The raw texts reached in a body that may be missing.
pub open spec fn texts_in_block(block: Option<BlockStmt>, alias: String) -> Seq<Seq<String>>
    decreases block, 0nat,
{
    match block {
        Some(block) => texts_in_body(block.stmts@, block.stmts@.len(), alias),
        None => Seq::empty(),
    }
}

/// The raw texts reached in the expression statements among the first `n` statements of a body.
pub open spec fn texts_in_body(body: Seq<Stmt>, n: nat, alias: String) -> Seq<Seq<String>>
    decreases body, n,
{
    if n == 0 || n > body.len() {
        Seq::empty()
    } else {
        texts_in_body(body, (n - 1) as nat, alias) + (match body[n - 1] {
            Stmt::Expr { expr, .. } => texts_in_expr(*expr, alias),
            _ => Seq::empty(),
        })
    }
}

/// Whether the search below an expression finds every query under the name
/// and span that it began with: no tagged template with a matching tag
/// stands below the value of an auto-accessor, or below a statement of a
/// body that is no expression statement.
pub open spec fn keeps_label_in_expr(e: Expr, span: Span, alias: String) -> bool
    decreases e, 0nat,
{
    match e {
        Expr::TaggedTpl { tag, quasis, exprs } => tag_matches(*tag, alias) ==> keeps_label_in_exprs(
            exprs@,
            exprs@.len(),
            span,
            alias,
        ),
        Expr::TsNonNull(inner) | Expr::TsTypeAssertion(inner) | Expr::TsConstAssertion(inner)
        | Expr::TsAs(inner) | Expr::TsSatisfies(inner) | Expr::Paren(inner) | Expr::Unary(inner)
        | Expr::Update(inner) | Expr::Assign(inner) | Expr::Member(inner) | Expr::Await(
            inner,
        ) => keeps_label_in_expr(*inner, span, alias),
        Expr::Call { callee, args } => (match callee {
            Some(callee) if args@.len() == 0 => keeps_label_in_expr(*callee, span, alias),
            _ => true,
        }) && keeps_label_in_exprs(args@, args@.len(), span, alias),
        Expr::Array(elems) => keeps_label_in_elems(elems@, elems@.len(), span, alias),
        Expr::Object(props) => keeps_label_in_props(props@, props@.len(), span, alias),
        Expr::Bin(left, right) => keeps_label_in_expr(*left, span, alias) && keeps_label_in_expr(
            *right,
            span,
            alias,
        ),
        Expr::SuperProp(Some(computed)) | Expr::Yield(Some(computed)) => keeps_label_in_expr(
            *computed,
            span,
            alias,
        ),
        Expr::Cond(test, cons, alt) => keeps_label_in_expr(*test, span, alias)
            && keeps_label_in_expr(*cons, span, alias) && keeps_label_in_expr(*alt, span, alias),
        Expr::New { callee, args } => keeps_label_in_expr(*callee, span, alias) && (match args {
            Some(args) => keeps_label_in_exprs(args@, args@.len(), span, alias),
            None => true,
        }),
        Expr::Sequence(exprs) | Expr::Tpl(exprs) => keeps_label_in_exprs(
            exprs@,
            exprs@.len(),
            span,
            alias,
        ),
        Expr::Arrow { params, body } => keeps_label_in_params(params@, params@.len(), span, alias)
            && (match body {
            ArrowBody::Block(block) => keeps_label_in_body(
                block.stmts@,
                block.stmts@.len(),
                span,
                alias,
            ),
            ArrowBody::Expr(value) => keeps_label_in_expr(*value, span, alias),
        }),
        Expr::Class(members) => keeps_label_in_members(members@, members@.len(), span, alias),
        Expr::OptChain(OptChainBase::Member(object)) => keeps_label_in_expr(*object, span, alias),
        Expr::OptChain(OptChainBase::Call { callee, args }) => keeps_label_in_expr(
            *callee,
            span,
            alias,
        ) && keeps_label_in_exprs(args@, args@.len(), span, alias),
        _ => true,
    }
}

/// The same of the first `n` of `exprs`.
pub open spec fn keeps_label_in_exprs(exprs: Seq<Expr>, n: nat, span: Span, alias: String) -> bool
    decreases exprs, n,
{
    if n == 0 || n > exprs.len() {
        true
    } else {
        keeps_label_in_exprs(exprs, (n - 1) as nat, span, alias) && (keeps_label_in_expr(exprs[n - 1], span, alias))
    }
}

/// The same of the first `n` elements of an array literal.
pub open spec fn keeps_label_in_elems(elems: Seq<Option<Expr>>, n: nat, span: Span, alias: String) -> bool
    decreases elems, n,
{
    if n == 0 || n > elems.len() {
        true
    } else {
        keeps_label_in_elems(elems, (n - 1) as nat, span, alias) && (match elems[n - 1] {
            Some(elem) => keeps_label_in_expr(elem, span, alias),
            None => true,
        })
    }
}

/// The same of the first `n` properties of an object literal.
pub open spec fn keeps_label_in_props(props: Seq<Prop>, n: nat, span: Span, alias: String) -> bool
    decreases props, n,
{
    if n == 0 || n > props.len() {
        true
    } else {
        keeps_label_in_props(props, (n - 1) as nat, span, alias) && (match props[n - 1] {
            Prop::KeyValue(value) | Prop::Assign(value) => keeps_label_in_expr(*value, span, alias),
            Prop::Getter(body) | Prop::Setter(body) | Prop::Method(body) => keeps_label_in_block(
                body,
                span,
                alias,
            ),
            Prop::Spread | Prop::Shorthand => true,
        })
    }
}

/// The same of the first `n` parameters.
pub open spec fn keeps_label_in_params(params: Seq<Pat>, n: nat, span: Span, alias: String) -> bool
    decreases params, n,
{
    if n == 0 || n > params.len() {
        true
    } else {
        keeps_label_in_params(params, (n - 1) as nat, span, alias) && (match params[n - 1] {
            Pat::Assign(value) | Pat::Expr(value) => keeps_label_in_expr(*value, span, alias),
            _ => true,
        })
    }
}

/// The same of the first `n` members of a class.
pub open spec fn keeps_label_in_members(members: Seq<ClassMember>, n: nat, span: Span, alias: String) -> bool
    decreases members, n,
{
    if n == 0 || n > members.len() {
        true
    } else {
        keeps_label_in_members(members, (n - 1) as nat, span, alias) && (match members[n - 1] {
            ClassMember::Constructor(body) | ClassMember::Method(body)
            | ClassMember::PrivateMethod(body) => keeps_label_in_block(body, span, alias),
            ClassMember::ClassProp(Some(value)) | ClassMember::PrivateProp(
                Some(value),
            ) => keeps_label_in_expr(*value, span, alias),
            ClassMember::StaticBlock(block) => keeps_label_in_body(
                block.stmts@,
                block.stmts@.len(),
                span,
                alias,
            ),
            ClassMember::AutoAccessor { key, value: Some(value) } => tally_expr(
                *value,
                key_name(key),
                span,
                alias,
            ).templates == 0,
            _ => true,
        })
    }
}

/// The same of a body that may be missing.
pub open spec fn keeps_label_in_block(block: Option<BlockStmt>, span: Span, alias: String) -> bool
    decreases block, 0nat,
{
    match block {
        Some(block) => keeps_label_in_body(block.stmts@, block.stmts@.len(), span, alias),
        None => true,
    }
}

/// The same of the first `n` statements of a body.
pub open spec fn keeps_label_in_body(body: Seq<Stmt>, n: nat, span: Span, alias: String) -> bool
    decreases body, n,
{
    if n == 0 || n > body.len() {
        true
    } else {
        keeps_label_in_body(body, (n - 1) as nat, span, alias) && (match body[n - 1] {
            Stmt::Expr { expr, .. } => keeps_label_in_expr(*expr, span, alias),
            other => tally_stmt(other, alias).templates == 0,
        })
    }
}

/// What is found below an expression is settled by the raw texts that the
/// search reaches there.
proof fn lemma_expr(e: Expr, name: Option<String>, span: Span, alias: String)
    requires
        keeps_label_in_expr(e, span, alias),
    ensures
        found_in_expr(e, name, span, alias) == labelled(texts_in_expr(e, alias), name, span, alias),
    decreases e, 0nat,
{
    let none = Seq::<Seq<String>>::empty();
    lemma_labelled_one(Seq::empty(), name, span, alias);
    match e {
        Expr::TaggedTpl { tag, quasis, exprs } => {
            if tag_matches(*tag, alias) {
                lemma_exprs(exprs@, exprs@.len(), name, span, alias);
                lemma_labelled_one(quasis@, name, span, alias);
                lemma_labelled_concat(
                    seq![quasis@],
                    texts_in_exprs(exprs@, exprs@.len(), alias),
                    name,
                    span,
                    alias,
                );
            }
        },
        Expr::TsNonNull(inner) | Expr::TsTypeAssertion(inner) | Expr::TsConstAssertion(inner)
        | Expr::TsAs(inner) | Expr::TsSatisfies(inner) | Expr::Paren(inner) | Expr::Unary(inner)
        | Expr::Update(inner) | Expr::Assign(inner) | Expr::Member(inner) | Expr::Await(inner) => {
            lemma_expr(*inner, name, span, alias);
        },
        Expr::Call { callee, args } => {
            lemma_exprs(args@, args@.len(), name, span, alias);
            let in_args = texts_in_exprs(args@, args@.len(), alias);
            match callee {
                Some(callee) => {
                    if args@.len() == 0 {
                        lemma_expr(*callee, name, span, alias);
                        lemma_labelled_concat(
                            texts_in_expr(*callee, alias),
                            in_args,
                            name,
                            span,
                            alias,
                        );
                    } else {
                        lemma_labelled_concat(none, in_args, name, span, alias);
                    }
                },
                None => {
                    lemma_labelled_concat(none, in_args, name, span, alias);
                },
            }
        },
        Expr::Array(elems) => {
            lemma_elems(elems@, elems@.len(), name, span, alias);
        },
        Expr::Object(props) => {
            lemma_props(props@, props@.len(), name, span, alias);
        },
        Expr::Bin(left, right) => {
            lemma_expr(*left, name, span, alias);
            lemma_expr(*right, name, span, alias);
            lemma_labelled_concat(
                texts_in_expr(*left, alias),
                texts_in_expr(*right, alias),
                name,
                span,
                alias,
            );
        },
        Expr::SuperProp(Some(computed)) | Expr::Yield(Some(computed)) => {
            lemma_expr(*computed, name, span, alias);
        },
        Expr::Cond(test, cons, alt) => {
            lemma_expr(*test, name, span, alias);
            lemma_expr(*cons, name, span, alias);
            lemma_expr(*alt, name, span, alias);
            lemma_labelled_concat(
                texts_in_expr(*test, alias),
                texts_in_expr(*cons, alias),
                name,
                span,
                alias,
            );
            lemma_labelled_concat(
                texts_in_expr(*test, alias) + texts_in_expr(*cons, alias),
                texts_in_expr(*alt, alias),
                name,
                span,
                alias,
            );
        },
        Expr::New { callee, args } => {
            lemma_expr(*callee, name, span, alias);
            match args {
                Some(args) => {
                    lemma_exprs(args@, args@.len(), name, span, alias);
                    lemma_labelled_concat(
                        texts_in_expr(*callee, alias),
                        texts_in_exprs(args@, args@.len(), alias),
                        name,
                        span,
                        alias,
                    );
                },
                None => {
                    lemma_labelled_concat(texts_in_expr(*callee, alias), none, name, span, alias);
                },
            }
        },
        Expr::Sequence(exprs) | Expr::Tpl(exprs) => {
            lemma_exprs(exprs@, exprs@.len(), name, span, alias);
        },
        Expr::Arrow { params, body } => {
            lemma_params(params@, params@.len(), name, span, alias);
            let in_params = texts_in_params(params@, params@.len(), alias);
            match body {
                ArrowBody::Block(block) => {
                    lemma_body(block.stmts@, block.stmts@.len(), name, span, alias);
                    lemma_labelled_concat(
                        in_params,
                        texts_in_body(block.stmts@, block.stmts@.len(), alias),
                        name,
                        span,
                        alias,
                    );
                },
                ArrowBody::Expr(value) => {
                    lemma_expr(*value, name, span, alias);
                    lemma_labelled_concat(
                        in_params,
                        texts_in_expr(*value, alias),
                        name,
                        span,
                        alias,
                    );
                },
            }
        },
        Expr::Class(members) => {
            lemma_members(members@, members@.len(), name, span, alias);
        },
        Expr::OptChain(OptChainBase::Member(object)) => {
            lemma_expr(*object, name, span, alias);
        },
        Expr::OptChain(OptChainBase::Call { callee, args }) => {
            lemma_expr(*callee, name, span, alias);
            lemma_exprs(args@, args@.len(), name, span, alias);
            lemma_labelled_concat(
                texts_in_expr(*callee, alias),
                texts_in_exprs(args@, args@.len(), alias),
                name,
                span,
                alias,
            );
        },
        _ => {},
    }
}

/// What is found below the first `n` of `exprs` is settled by the raw
/// texts reached there.
proof fn lemma_exprs(exprs: Seq<Expr>, n: nat, name: Option<String>, span: Span, alias: String)
    requires
        keeps_label_in_exprs(exprs, n, span, alias),
    ensures
        found_in_exprs(exprs, n, name, span, alias) == labelled(
            texts_in_exprs(exprs, n, alias),
            name,
            span,
            alias,
        ),
    decreases exprs, n,
{
    let none = Seq::<Seq<String>>::empty();
    lemma_labelled_one(Seq::empty(), name, span, alias);
    if n == 0 || n > exprs.len() {
    } else {
        lemma_exprs(exprs, (n - 1) as nat, name, span, alias);
        let before = texts_in_exprs(exprs, (n - 1) as nat, alias);
        match exprs[n - 1] {
            last => {
                lemma_expr(last, name, span, alias);
                lemma_labelled_concat(before, texts_in_expr(last, alias), name, span, alias);
            },

        }
    }
}

/// What is found below the first `n` of `elems` is settled by the raw
/// texts reached there.
proof fn lemma_elems(elems: Seq<Option<Expr>>, n: nat, name: Option<String>, span: Span, alias: String)
    requires
        keeps_label_in_elems(elems, n, span, alias),
    ensures
        found_in_elems(elems, n, name, span, alias) == labelled(
            texts_in_elems(elems, n, alias),
            name,
            span,
            alias,
        ),
    decreases elems, n,
{
    let none = Seq::<Seq<String>>::empty();
    lemma_labelled_one(Seq::empty(), name, span, alias);
    if n == 0 || n > elems.len() {
    } else {
        lemma_elems(elems, (n - 1) as nat, name, span, alias);
        let before = texts_in_elems(elems, (n - 1) as nat, alias);
        match elems[n - 1] {
            Some(elem) => {
                lemma_expr(elem, name, span, alias);
                lemma_labelled_concat(before, texts_in_expr(elem, alias), name, span, alias);
            },
            None => {
                lemma_labelled_concat(before, none, name, span, alias);
            },

        }
    }
}

/// What is found below the first `n` of `props` is settled by the raw
/// texts reached there.
proof fn lemma_props(props: Seq<Prop>, n: nat, name: Option<String>, span: Span, alias: String)
    requires
        keeps_label_in_props(props, n, span, alias),
    ensures
        found_in_props(props, n, name, span, alias) == labelled(
            texts_in_props(props, n, alias),
            name,
            span,
            alias,
        ),
    decreases props, n,
{
    let none = Seq::<Seq<String>>::empty();
    lemma_labelled_one(Seq::empty(), name, span, alias);
    if n == 0 || n > props.len() {
    } else {
        lemma_props(props, (n - 1) as nat, name, span, alias);
        let before = texts_in_props(props, (n - 1) as nat, alias);
        match props[n - 1] {
            Prop::KeyValue(value) | Prop::Assign(value) => {
                lemma_expr(*value, name, span, alias);
                lemma_labelled_concat(before, texts_in_expr(*value, alias), name, span, alias);
            },
            Prop::Getter(body) | Prop::Setter(body) | Prop::Method(body) => {
                lemma_block(body, name, span, alias);
                lemma_labelled_concat(before, texts_in_block(body, alias), name, span, alias);
            },
            Prop::Spread | Prop::Shorthand => {
                lemma_labelled_concat(before, none, name, span, alias);
            },

        }
    }
}

/// What is found below the first `n` of `params` is settled by the raw
/// texts reached there.
proof fn lemma_params(params: Seq<Pat>, n: nat, name: Option<String>, span: Span, alias: String)
    requires
        keeps_label_in_params(params, n, span, alias),
    ensures
        found_in_params(params, n, name, span, alias) == labelled(
            texts_in_params(params, n, alias),
            name,
            span,
            alias,
        ),
    decreases params, n,
{
    let none = Seq::<Seq<String>>::empty();
    lemma_labelled_one(Seq::empty(), name, span, alias);
    if n == 0 || n > params.len() {
    } else {
        lemma_params(params, (n - 1) as nat, name, span, alias);
        let before = texts_in_params(params, (n - 1) as nat, alias);
        match params[n - 1] {
            Pat::Assign(value) | Pat::Expr(value) => {
                lemma_expr(*value, name, span, alias);
                lemma_labelled_concat(before, texts_in_expr(*value, alias), name, span, alias);
            },
            _ => {
                lemma_labelled_concat(before, none, name, span, alias);
            },

        }
    }
}

/// What is found below the first `n` of `members` is settled by the raw
/// texts reached there.
proof fn lemma_members(members: Seq<ClassMember>, n: nat, name: Option<String>, span: Span, alias: String)
    requires
        keeps_label_in_members(members, n, span, alias),
    ensures
        found_in_members(members, n, name, span, alias) == labelled(
            texts_in_members(members, n, alias),
            name,
            span,
            alias,
        ),
    decreases members, n,
{
    let none = Seq::<Seq<String>>::empty();
    lemma_labelled_one(Seq::empty(), name, span, alias);
    if n == 0 || n > members.len() {
    } else {
        lemma_members(members, (n - 1) as nat, name, span, alias);
        let before = texts_in_members(members, (n - 1) as nat, alias);
        match members[n - 1] {
            ClassMember::Constructor(body) | ClassMember::Method(body) | ClassMember::PrivateMethod(body) => {
                lemma_block(body, name, span, alias);
                lemma_labelled_concat(before, texts_in_block(body, alias), name, span, alias);
            },
            ClassMember::ClassProp(Some(value)) | ClassMember::PrivateProp(Some(value)) => {
                lemma_expr(*value, name, span, alias);
                lemma_labelled_concat(before, texts_in_expr(*value, alias), name, span, alias);
            },
            ClassMember::StaticBlock(block) => {
                lemma_body(block.stmts@, block.stmts@.len(), name, span, alias);
                lemma_labelled_concat(before, texts_in_body(block.stmts@, block.stmts@.len(), alias), name, span, alias);
            },
            ClassMember::AutoAccessor { key, value: Some(value) } => {
                lemma_nothing_without_templates_in_expr(*value, key_name(key), span, alias);
                lemma_labelled_concat(before, none, name, span, alias);
            },
            _ => {
                lemma_labelled_concat(before, none, name, span, alias);
            },

        }
    }
}

/// What is found in a body that may be missing is settled by the raw texts
/// reached there.
proof fn lemma_block(block: Option<BlockStmt>, name: Option<String>, span: Span, alias: String)
    requires
        keeps_label_in_block(block, span, alias),
    ensures
        found_in_block(block, name, span, alias) == labelled(
            texts_in_block(block, alias),
            name,
            span,
            alias,
        ),
    decreases block, 0nat,
{
    lemma_labelled_one(Seq::empty(), name, span, alias);
    match block {
        Some(block) => {
            lemma_body(block.stmts@, block.stmts@.len(), name, span, alias);
        },
        None => {},
    }
}

/// What is found below the first `n` of `body` is settled by the raw
/// texts reached there.
proof fn lemma_body(body: Seq<Stmt>, n: nat, name: Option<String>, span: Span, alias: String)
    requires
        keeps_label_in_body(body, n, span, alias),
    ensures
        found_in_body(body, n, name, span, alias) == labelled(
            texts_in_body(body, n, alias),
            name,
            span,
            alias,
        ),
    decreases body, n,
{
    let none = Seq::<Seq<String>>::empty();
    lemma_labelled_one(Seq::empty(), name, span, alias);
    if n == 0 || n > body.len() {
    } else {
        lemma_body(body, (n - 1) as nat, name, span, alias);
        let before = texts_in_body(body, (n - 1) as nat, alias);
        match body[n - 1] {
            Stmt::Expr { expr, .. } => {
                lemma_expr(*expr, name, span, alias);
                lemma_labelled_concat(before, texts_in_expr(*expr, alias), name, span, alias);
            },
            other => {
                lemma_nothing_without_templates(other, alias);
                lemma_labelled_concat(before, none, name, span, alias);
            },

        }
    }
}

/// The queries found below an expression are those of the templates that
/// the search reaches there, under the name and span given.
pub proof fn lemma_found_by_texts(e: Expr, name: Option<String>, span: Span, alias: String)
    requires
        keeps_label_in_expr(e, span, alias),
    ensures
        found_in_expr(e, name, span, alias) == labelled(texts_in_expr(e, alias), name, span, alias),
{
    lemma_expr(e, name, span, alias);
}

/// Two expressions in which the search reaches templates with the same raw
/// texts give the same queries under the same name and span, whatever else
/// stands in them. So a tagged template gives below wrappers, calls,
/// functions and the members of a class, a static block among them, the
/// queries that it gives where it stands alone.
pub proof fn lemma_same_texts_same_queries(
    outer: Expr,
    inner: Expr,
    name: Option<String>,
    span: Span,
    alias: String,
)
    requires
        keeps_label_in_expr(outer, span, alias),
        keeps_label_in_expr(inner, span, alias),
        texts_in_expr(outer, alias) == texts_in_expr(inner, alias),
    ensures
        found_in_expr(outer, name, span, alias) == found_in_expr(inner, name, span, alias),
{
    lemma_expr(outer, name, span, alias);
    lemma_expr(inner, name, span, alias);
}

/// A tagged template that is the one statement of the one static block of a
/// class gives the queries that it gives where it stands alone.
pub proof fn lemma_template_in_static_block(
    class: Expr,
    template: Expr,
    name: Option<String>,
    span: Span,
    alias: String,
)
    requires
        keeps_label_in_expr(template, span, alias),
        class matches Expr::Class(members) && members@.len() == 1 && (
        members@[0] matches ClassMember::StaticBlock(block) && block.stmts@.len() == 1 && (
        block.stmts@[0] matches Stmt::Expr { expr, .. } && *expr == template)),
    ensures
        found_in_expr(class, name, span, alias) == found_in_expr(template, name, span, alias),
{
    let members = class->Class_0;
    let stmts = members@[0]->StaticBlock_0.stmts;
    let none = Seq::<Seq<String>>::empty();
    assert(keeps_label_in_body(stmts@, 0, span, alias));
    assert(keeps_label_in_body(stmts@, 1, span, alias));
    assert(keeps_label_in_members(members@, 0, span, alias));
    assert(keeps_label_in_members(members@, 1, span, alias));
    assert(texts_in_body(stmts@, 0, alias) =~= none);
    assert(texts_in_body(stmts@, 1, alias) =~= texts_in_expr(template, alias));
    assert(texts_in_members(members@, 0, alias) =~= none);
    assert(texts_in_members(members@, 1, alias) =~= texts_in_expr(template, alias));
    lemma_same_texts_same_queries(class, template, name, span, alias);
}

} // verus!
