//! The search for tagged SQL templates below an expression.

use crate::common::sql::{Span, SQL};
use crate::parser::ast::{
    ArrowBody, BlockStmt, ClassMember, Expr, OptChainBase, Pat, Prop, Stmt, VarDeclarator,
};
use crate::parser::found::{
    found_in_block, found_in_body, found_in_elems, found_in_expr, found_in_exprs,
    found_in_members, found_in_params, found_in_props, found_in_var_decl, pattern_name,
    template_sqls,
};
use crate::parser::js_parser::{get_var_decl_name_from_key, recurse_and_find_sql};
use crate::text::contains_str;
use vstd::prelude::*;

verus! {

/// A copy of a binding name.
fn clone_name(name: &Option<String>) -> (out: Option<String>)
    ensures
        out == *name,
{
    match name {
        Some(name) => Some(name.clone()),
        None => None,
    }
}

/// Adds one query for each raw text of a template.
fn push_template_sqls(
    sqls: &mut Vec<SQL>,
    var_decl_name: &Option<String>,
    quasis: &Vec<String>,
    span: &Span,
    import_alias: &String,
)
    ensures
        final(sqls)@ == old(sqls)@ + template_sqls(quasis@, *var_decl_name, *span, *import_alias),
{
    let ghost before = sqls@;
    let ghost all = template_sqls(quasis@, *var_decl_name, *span, *import_alias);
    let mut i: usize = 0;
    while i < quasis.len()
        invariant
            i <= quasis.len(),
            all == template_sqls(quasis@, *var_decl_name, *span, *import_alias),
            sqls@ == before + all.take(i as int),
        decreases quasis.len() - i,
    {
        sqls.push(
            SQL {
                query: quasis[i].clone(),
                binding_name: clone_name(var_decl_name),
                span: *span,
                import_alias: import_alias.clone(),
            },
        );
        proof {
            assert(all.take(i + 1) =~= all.take(i as int).push(all[i as int]));
            assert(sqls@ =~= before + all.take(i + 1));
        }
        i = i + 1;
    }
    proof {
        assert(all.take(quasis.len() as int) =~= all);
    }
}

/// Searches each of `exprs`.
fn find_in_exprs(
    sqls: &mut Vec<SQL>,
    var_decl_name: &Option<String>,
    exprs: &Vec<Expr>,
    span: &Span,
    import_alias: &String,
)
    ensures
        final(sqls)@ == old(sqls)@ + found_in_exprs(
            exprs@,
            exprs@.len(),
            *var_decl_name,
            *span,
            *import_alias,
        ),
    decreases exprs,
{
    let ghost before = sqls@;
    let mut i: usize = 0;
    while i < exprs.len()
        invariant
            i <= exprs.len(),
            sqls@ == before + found_in_exprs(exprs@, i as nat, *var_decl_name, *span, *import_alias),
        decreases exprs.len() - i,
    {
        get_sql_from_expr(sqls, var_decl_name, &exprs[i], span, import_alias);
        proof {
            assert(sqls@ =~= before + found_in_exprs(
                exprs@,
                (i + 1) as nat,
                *var_decl_name,
                *span,
                *import_alias,
            ));
        }
        i = i + 1;
    }
}

/// Searches the elements of an array literal.
fn find_in_elems(
    sqls: &mut Vec<SQL>,
    var_decl_name: &Option<String>,
    elems: &Vec<Option<Expr>>,
    span: &Span,
    import_alias: &String,
)
    ensures
        final(sqls)@ == old(sqls)@ + found_in_elems(
            elems@,
            elems@.len(),
            *var_decl_name,
            *span,
            *import_alias,
        ),
    decreases elems,
{
    let ghost before = sqls@;
    let mut i: usize = 0;
    while i < elems.len()
        invariant
            i <= elems.len(),
            sqls@ == before + found_in_elems(elems@, i as nat, *var_decl_name, *span, *import_alias),
        decreases elems.len() - i,
    {
        if let Some(elem) = &elems[i] {
            get_sql_from_expr(sqls, var_decl_name, elem, span, import_alias);
        }
        proof {
            assert(sqls@ =~= before + found_in_elems(
                elems@,
                (i + 1) as nat,
                *var_decl_name,
                *span,
                *import_alias,
            ));
        }
        i = i + 1;
    }
}

/// Searches the values and bodies of the properties of an object literal.
fn find_in_props(
    sqls: &mut Vec<SQL>,
    var_decl_name: &Option<String>,
    props: &Vec<Prop>,
    span: &Span,
    import_alias: &String,
)
    ensures
        final(sqls)@ == old(sqls)@ + found_in_props(
            props@,
            props@.len(),
            *var_decl_name,
            *span,
            *import_alias,
        ),
    decreases props,
{
    let ghost before = sqls@;
    let mut i: usize = 0;
    while i < props.len()
        invariant
            i <= props.len(),
            sqls@ == before + found_in_props(props@, i as nat, *var_decl_name, *span, *import_alias),
        decreases props.len() - i,
    {
        match &props[i] {
            Prop::Spread => {},
            Prop::Shorthand => {},
            Prop::KeyValue(value) => {
                get_sql_from_expr(sqls, var_decl_name, &**value, span, import_alias);
            },
            Prop::Assign(value) => {
                get_sql_from_expr(sqls, var_decl_name, &**value, span, import_alias);
            },
            Prop::Getter(body) => {
                process_block_stmt_as_expr(body, sqls, var_decl_name, span, import_alias);
            },
            Prop::Setter(body) => {
                process_block_stmt_as_expr(body, sqls, var_decl_name, span, import_alias);
            },
            Prop::Method(body) => {
                process_block_stmt_as_expr(body, sqls, var_decl_name, span, import_alias);
            },
        }
        proof {
            assert(sqls@ =~= before + found_in_props(
                props@,
                (i + 1) as nat,
                *var_decl_name,
                *span,
                *import_alias,
            ));
        }
        i = i + 1;
    }
}

/// Searches the default values of the parameters of an arrow function.
fn find_in_params(
    sqls: &mut Vec<SQL>,
    var_decl_name: &Option<String>,
    params: &Vec<Pat>,
    span: &Span,
    import_alias: &String,
)
    ensures
        final(sqls)@ == old(sqls)@ + found_in_params(
            params@,
            params@.len(),
            *var_decl_name,
            *span,
            *import_alias,
        ),
    decreases params,
{
    let ghost before = sqls@;
    let mut i: usize = 0;
    while i < params.len()
        invariant
            i <= params.len(),
            sqls@ == before + found_in_params(
                params@,
                i as nat,
                *var_decl_name,
                *span,
                *import_alias,
            ),
        decreases params.len() - i,
    {
        match &params[i] {
            Pat::Assign(value) => {
                get_sql_from_expr(sqls, var_decl_name, &**value, span, import_alias);
            },
            Pat::Expr(value) => {
                get_sql_from_expr(sqls, var_decl_name, &**value, span, import_alias);
            },
            _ => {},
        }
        proof {
            assert(sqls@ =~= before + found_in_params(
                params@,
                (i + 1) as nat,
                *var_decl_name,
                *span,
                *import_alias,
            ));
        }
        i = i + 1;
    }
}

/// Searches the statements of the body of a function or a class member.
fn find_in_body(
    sqls: &mut Vec<SQL>,
    var_decl_name: &Option<String>,
    stmts: &Vec<Stmt>,
    span: &Span,
    import_alias: &String,
)
    ensures
        final(sqls)@ == old(sqls)@ + found_in_body(
            stmts@,
            stmts@.len(),
            *var_decl_name,
            *span,
            *import_alias,
        ),
    decreases stmts,
{
    let ghost before = sqls@;
    let mut i: usize = 0;
    while i < stmts.len()
        invariant
            i <= stmts.len(),
            sqls@ == before + found_in_body(stmts@, i as nat, *var_decl_name, *span, *import_alias),
        decreases stmts.len() - i,
    {
        match &stmts[i] {
            Stmt::Expr { expr, .. } => {
                get_sql_from_expr(sqls, var_decl_name, &**expr, span, import_alias);
            },
            other => {
                recurse_and_find_sql(sqls, other, import_alias);
            },
        }
        proof {
            assert(sqls@ =~= before + found_in_body(
                stmts@,
                (i + 1) as nat,
                *var_decl_name,
                *span,
                *import_alias,
            ));
        }
        i = i + 1;
    }
}

/// Searches the members of a class.
pub fn get_sql_from_class_members(
    sqls: &mut Vec<SQL>,
    var_decl_name: &Option<String>,
    members: &Vec<ClassMember>,
    span: &Span,
    import_alias: &String,
)
    ensures
        final(sqls)@ == old(sqls)@ + found_in_members(
            members@,
            members@.len(),
            *var_decl_name,
            *span,
            *import_alias,
        ),
    decreases members,
{
    let ghost before = sqls@;
    let mut i: usize = 0;
    while i < members.len()
        invariant
            i <= members.len(),
            sqls@ == before + found_in_members(
                members@,
                i as nat,
                *var_decl_name,
                *span,
                *import_alias,
            ),
        decreases members.len() - i,
    {
        match &members[i] {
            ClassMember::Constructor(body) => {
                process_block_stmt_as_expr(body, sqls, var_decl_name, span, import_alias);
            },
            ClassMember::Method(body) => {
                process_block_stmt_as_expr(body, sqls, var_decl_name, span, import_alias);
            },
            ClassMember::PrivateMethod(body) => {
                process_block_stmt_as_expr(body, sqls, var_decl_name, span, import_alias);
            },
            ClassMember::ClassProp(value) => {
                if let Some(value) = value {
                    get_sql_from_expr(sqls, var_decl_name, &**value, span, import_alias);
                }
            },
            ClassMember::PrivateProp(value) => {
                if let Some(value) = value {
                    get_sql_from_expr(sqls, var_decl_name, &**value, span, import_alias);
                }
            },
            ClassMember::TsIndexSignature => {},
            ClassMember::Empty => {},
            ClassMember::StaticBlock(block) => {
                find_in_body(sqls, var_decl_name, &block.stmts, span, import_alias);
            },
            ClassMember::AutoAccessor { key, value } => {
                if let Some(value) = value {
                    let key_name = get_var_decl_name_from_key(key);
                    get_sql_from_expr(sqls, &key_name, &**value, span, import_alias);
                }
            },
        }
        proof {
            assert(sqls@ =~= before + found_in_members(
                members@,
                (i + 1) as nat,
                *var_decl_name,
                *span,
                *import_alias,
            ));
        }
        i = i + 1;
    }
}

/// Searches the body of a getter, a setter, a method or a constructor. An
/// expression statement of the body is searched under `var_decl_name` and
/// `span`; every other statement is searched on its own.
pub fn process_block_stmt_as_expr(
    block_stmt: &Option<BlockStmt>,
    sqls: &mut Vec<SQL>,
    var_decl_name: &Option<String>,
    span: &Span,
    import_alias: &String,
)
    ensures
        final(sqls)@ == old(sqls)@ + found_in_block(
            *block_stmt,
            *var_decl_name,
            *span,
            *import_alias,
        ),
    decreases block_stmt,
{
    if let Some(body) = block_stmt {
        find_in_body(sqls, var_decl_name, &body.stmts, span, import_alias);
    }
}

/// The name that a variable declaration binds: that of a plain name. A
/// pattern that takes a value apart names no single variable.
pub fn get_var_decl_name(var_declarator: &VarDeclarator) -> (name: Option<String>)
    ensures
        name == pattern_name(var_declarator.name),
{
    match &var_declarator.name {
        Pat::Ident(ident) => Some(ident.clone()),
        Pat::Array => None,
        Pat::Rest => None,
        Pat::Object => None,
        Pat::Assign(_) => None,
        Pat::Invalid => None,
        Pat::Expr(_) => None,
    }
}

/// Adds to `sqls` the queries of the tagged templates below `expr` whose tag
/// is an identifier that holds `import_alias`, one for each raw text of a
/// template, in the order of the source. Each query carries `var_decl_name`
/// and `span`, or those of a nearer binding or statement.
pub fn get_sql_from_expr(
    sqls: &mut Vec<SQL>,
    var_decl_name: &Option<String>,
    expr: &Expr,
    span: &Span,
    import_alias: &String,
)
    ensures
        final(sqls)@ == old(sqls)@ + found_in_expr(*expr, *var_decl_name, *span, *import_alias),
    decreases expr,
{
    match expr {
        Expr::TaggedTpl { tag, quasis, exprs } => {
            if let Expr::Ident(ident) = &**tag {
                if contains_str(ident.as_str(), import_alias.as_str()) {
                    push_template_sqls(sqls, var_decl_name, quasis, span, import_alias);
                    find_in_exprs(sqls, var_decl_name, exprs, span, import_alias);
                    proof {
                        assert(sqls@ =~= old(sqls)@ + found_in_expr(
                            *expr,
                            *var_decl_name,
                            *span,
                            *import_alias,
                        ));
                    }
                }
            }
        },
        Expr::TsNonNull(inner) => {
            get_sql_from_expr(sqls, var_decl_name, &**inner, span, import_alias);
        },
        Expr::TsTypeAssertion(inner) => {
            get_sql_from_expr(sqls, var_decl_name, &**inner, span, import_alias);
        },
        Expr::TsConstAssertion(inner) => {
            get_sql_from_expr(sqls, var_decl_name, &**inner, span, import_alias);
        },
        Expr::TsAs(inner) => {
            get_sql_from_expr(sqls, var_decl_name, &**inner, span, import_alias);
        },
        Expr::TsSatisfies(inner) => {
            get_sql_from_expr(sqls, var_decl_name, &**inner, span, import_alias);
        },
        Expr::Call { callee, args } => {
            if let Some(callee) = callee {
                if args.len() == 0 {
                    get_sql_from_expr(sqls, var_decl_name, &**callee, span, import_alias);
                }
            }
            find_in_exprs(sqls, var_decl_name, args, span, import_alias);
            proof {
                assert(sqls@ =~= old(sqls)@ + found_in_expr(
                    *expr,
                    *var_decl_name,
                    *span,
                    *import_alias,
                ));
            }
        },
        Expr::This => {},
        Expr::Array(elems) => {
            find_in_elems(sqls, var_decl_name, elems, span, import_alias);
        },
        Expr::Object(props) => {
            find_in_props(sqls, var_decl_name, props, span, import_alias);
        },
        Expr::Fn => {},
        Expr::Unary(arg) => {
            get_sql_from_expr(sqls, var_decl_name, &**arg, span, import_alias);
        },
        Expr::Update(arg) => {
            get_sql_from_expr(sqls, var_decl_name, &**arg, span, import_alias);
        },
        Expr::Bin(left, right) => {
            get_sql_from_expr(sqls, var_decl_name, &**left, span, import_alias);
            get_sql_from_expr(sqls, var_decl_name, &**right, span, import_alias);
            proof {
                assert(sqls@ =~= old(sqls)@ + found_in_expr(
                    *expr,
                    *var_decl_name,
                    *span,
                    *import_alias,
                ));
            }
        },
        Expr::Assign(right) => {
            // The left side is a pattern or a plain target: no template
            // stands there.
            get_sql_from_expr(sqls, var_decl_name, &**right, span, import_alias);
        },
        Expr::Member(object) => {
            get_sql_from_expr(sqls, var_decl_name, &**object, span, import_alias);
        },
        Expr::SuperProp(prop) => {
            if let Some(computed) = prop {
                get_sql_from_expr(sqls, var_decl_name, &**computed, span, import_alias);
            }
        },
        Expr::Cond(test, cons, alt) => {
            get_sql_from_expr(sqls, var_decl_name, &**test, span, import_alias);
            get_sql_from_expr(sqls, var_decl_name, &**cons, span, import_alias);
            get_sql_from_expr(sqls, var_decl_name, &**alt, span, import_alias);
            proof {
                assert(sqls@ =~= old(sqls)@ + found_in_expr(
                    *expr,
                    *var_decl_name,
                    *span,
                    *import_alias,
                ));
            }
        },
        Expr::New { callee, args } => {
            get_sql_from_expr(sqls, var_decl_name, &**callee, span, import_alias);
            if let Some(args) = args {
                find_in_exprs(sqls, var_decl_name, args, span, import_alias);
            }
            proof {
                assert(sqls@ =~= old(sqls)@ + found_in_expr(
                    *expr,
                    *var_decl_name,
                    *span,
                    *import_alias,
                ));
            }
        },
        Expr::Sequence(exprs) => {
            find_in_exprs(sqls, var_decl_name, exprs, span, import_alias);
        },
        Expr::Ident(_) => {},
        Expr::Lit => {},
        Expr::Tpl(exprs) => {
            find_in_exprs(sqls, var_decl_name, exprs, span, import_alias);
        },
        Expr::Arrow { params, body } => {
            find_in_params(sqls, var_decl_name, params, span, import_alias);
            match body {
                ArrowBody::Block(block) => {
                    find_in_body(sqls, var_decl_name, &block.stmts, span, import_alias);
                },
                ArrowBody::Expr(value) => {
                    get_sql_from_expr(sqls, var_decl_name, &**value, span, import_alias);
                },
            }
            proof {
                assert(sqls@ =~= old(sqls)@ + found_in_expr(
                    *expr,
                    *var_decl_name,
                    *span,
                    *import_alias,
                ));
            }
        },
        Expr::Class(members) => {
            get_sql_from_class_members(sqls, var_decl_name, members, span, import_alias);
        },
        Expr::Yield(arg) => {
            if let Some(arg) = arg {
                get_sql_from_expr(sqls, var_decl_name, &**arg, span, import_alias);
            }
        },
        Expr::MetaProp => {},
        Expr::Await(arg) => {
            get_sql_from_expr(sqls, var_decl_name, &**arg, span, import_alias);
        },
        Expr::Paren(inner) => {
            get_sql_from_expr(sqls, var_decl_name, &**inner, span, import_alias);
        },
        Expr::OptChain(base) => {
            match base {
                OptChainBase::Member(object) => {
                    get_sql_from_expr(sqls, var_decl_name, &**object, span, import_alias);
                },
                OptChainBase::Call { callee, args } => {
                    get_sql_from_expr(sqls, var_decl_name, &**callee, span, import_alias);
                    find_in_exprs(sqls, var_decl_name, args, span, import_alias);
                    proof {
                        assert(sqls@ =~= old(sqls)@ + found_in_expr(
                            *expr,
                            *var_decl_name,
                            *span,
                            *import_alias,
                        ));
                    }
                },
            }
        },
        Expr::JSXMember => {},
        Expr::JSXNamespacedName => {},
        Expr::JSXEmpty => {},
        Expr::JSXElement => {},
        Expr::JSXFragment => {},
        Expr::TsInstantiation => {},
        Expr::PrivateName => {},
        Expr::Invalid => {},
    }
    proof {
        assert(sqls@ =~= old(sqls)@ + found_in_expr(*expr, *var_decl_name, *span, *import_alias));
    }
}

/// The queries of a variable declaration such as
/// ``const someQuery = sql`SELECT * FROM items`;``: those below its initial
/// value, under the name that is declared. A pattern that takes the value
/// apart, as in ``const [rows] = sql`SELECT 1`;``, declares no single name:
/// the initial value is searched all the same, and its queries have no
/// binding name.
pub fn get_sql_from_var_decl(
    var_declarator: &VarDeclarator,
    span: &Span,
    import_alias: &String,
) -> (bag_of_sqls: Vec<SQL>)
    ensures
        bag_of_sqls@ == found_in_var_decl(*var_declarator, *span, *import_alias),
    decreases var_declarator,
{
    let mut bag_of_sqls: Vec<SQL> = Vec::new();
    let var_decl_name = get_var_decl_name(var_declarator);
    if let Some(init) = &var_declarator.init {
        get_sql_from_expr(&mut bag_of_sqls, &var_decl_name, &**init, span, import_alias);
    }
    proof {
        assert(bag_of_sqls@ =~= found_in_var_decl(*var_declarator, *span, *import_alias));
    }
    bag_of_sqls
}

} // verus!
