use sqlx_ts::common::sql::{Span, SQL};
use sqlx_ts::parser::ast::{
    ArrowBody, BlockStmt, ClassMember, Decl, Expr, Key, OptChainBase, Pat, Prop, Stmt,
    VarDeclarator,
};
use sqlx_ts::parser::js_parser::{get_var_decl_name_from_key, recurse_and_find_sql};
use sqlx_ts::parser::tag::{
    get_sql_from_class_members, get_sql_from_expr, get_sql_from_var_decl, get_var_decl_name,
    process_block_stmt_as_expr,
};

const HERE: Span = Span { lo: 10, hi: 20 };
const THERE: Span = Span { lo: 30, hi: 40 };

fn ident(name: &str) -> Expr {
    Expr::Ident(name.to_string())
}

fn boxed(expr: Expr) -> Box<Expr> {
    Box::new(expr)
}

fn tagged(tag: &str, quasis: &[&str]) -> Expr {
    Expr::TaggedTpl {
        tag: boxed(ident(tag)),
        quasis: quasis.iter().map(|q| q.to_string()).collect(),
        exprs: vec![],
    }
}

fn sql(query: &str) -> Expr {
    tagged("sql", &[query])
}

fn found(query: &str, name: Option<&str>, span: Span) -> SQL {
    SQL {
        query: query.to_string(),
        binding_name: name.map(|n| n.to_string()),
        span,
        import_alias: "sql".to_string(),
    }
}

fn search(expr: &Expr) -> Vec<SQL> {
    let mut sqls = vec![];
    get_sql_from_expr(&mut sqls, &Some("q".to_string()), expr, &HERE, &"sql".to_string());
    sqls
}

fn queries(sqls: &[SQL]) -> Vec<String> {
    sqls.iter().map(|s| s.query.clone()).collect()
}

fn search_stmt(stmt: &Stmt) -> Vec<SQL> {
    let mut sqls = vec![];
    recurse_and_find_sql(&mut sqls, stmt, &"sql".to_string());
    sqls
}

fn expr_stmt(expr: Expr) -> Stmt {
    Stmt::Expr { expr: boxed(expr), span: THERE }
}

fn block(stmts: Vec<Stmt>) -> BlockStmt {
    BlockStmt { stmts }
}

fn declare(name: &str, init: Expr) -> Stmt {
    Stmt::Decl(Decl::Var {
        decls: vec![VarDeclarator { name: Pat::Ident(name.to_string()), init: Some(boxed(init)) }],
        span: THERE,
    })
}

#[test]
fn tagged_template_gives_its_query() {
    assert_eq!(search(&sql("SELECT 1")), vec![found("SELECT 1", Some("q"), HERE)]);
}

#[test]
fn found_queries_are_added_to_those_already_there() {
    let mut sqls = vec![found("first", None, THERE)];
    get_sql_from_expr(&mut sqls, &None, &sql("second"), &HERE, &"sql".to_string());
    assert_eq!(sqls, vec![found("first", None, THERE), found("second", None, HERE)]);
}

#[test]
fn each_raw_text_gives_one_query() {
    let template = Expr::TaggedTpl {
        tag: boxed(ident("sql")),
        quasis: vec!["SELECT * FROM ".to_string(), " WHERE id = ".to_string(), "".to_string()],
        exprs: vec![ident("table"), ident("id")],
    };
    assert_eq!(
        search(&template),
        vec![
            found("SELECT * FROM ", Some("q"), HERE),
            found(" WHERE id = ", Some("q"), HERE),
            found("", Some("q"), HERE),
        ]
    );
}

#[test]
fn interpolations_of_a_matching_template_are_searched() {
    let template = Expr::TaggedTpl {
        tag: boxed(ident("sql")),
        quasis: vec!["a".to_string(), "b".to_string()],
        exprs: vec![sql("inner")],
    };
    assert_eq!(queries(&search(&template)), vec!["a", "b", "inner"]);
}

#[test]
fn tag_must_hold_the_alias() {
    assert_eq!(search(&tagged("gql", &["query"])), vec![]);
    assert_eq!(queries(&search(&tagged("sql#2", &["x"]))), vec!["x"]);
    assert_eq!(queries(&search(&tagged("mysql", &["y"]))), vec!["y"]);
    let member_tag = Expr::TaggedTpl {
        tag: boxed(Expr::Member(boxed(ident("sql")))),
        quasis: vec!["z".to_string()],
        exprs: vec![],
    };
    assert_eq!(search(&member_tag), vec![]);
    let other_tag = Expr::TaggedTpl {
        tag: boxed(ident("html")),
        quasis: vec!["<p>".to_string(), "</p>".to_string()],
        exprs: vec![sql("hidden")],
    };
    assert_eq!(search(&other_tag), vec![]);
}

#[test]
fn alias_is_carried_by_the_queries() {
    let mut sqls = vec![];
    get_sql_from_expr(&mut sqls, &None, &tagged("db", &["SELECT 2"]), &HERE, &"db".to_string());
    assert_eq!(
        sqls,
        vec![SQL {
            query: "SELECT 2".to_string(),
            binding_name: None,
            span: HERE,
            import_alias: "db".to_string(),
        }]
    );
}

#[test]
fn wrappers_are_searched() {
    let wrappers: Vec<fn(Box<Expr>) -> Expr> = vec![
        Expr::TsNonNull,
        Expr::TsTypeAssertion,
        Expr::TsConstAssertion,
        Expr::TsAs,
        Expr::TsSatisfies,
        Expr::Paren,
        Expr::Unary,
        Expr::Update,
        Expr::Assign,
        Expr::Member,
        Expr::Await,
        |inner| Expr::SuperProp(Some(inner)),
        |inner| Expr::Yield(Some(inner)),
        |inner| Expr::OptChain(OptChainBase::Member(inner)),
    ];
    for wrap in wrappers {
        assert_eq!(queries(&search(&wrap(boxed(sql("w"))))), vec!["w"]);
    }
}

#[test]
fn terminal_expressions_give_nothing() {
    let terminals = vec![
        Expr::This,
        Expr::Fn,
        ident("sql"),
        Expr::Lit,
        Expr::MetaProp,
        Expr::JSXMember,
        Expr::JSXNamespacedName,
        Expr::JSXEmpty,
        Expr::JSXElement,
        Expr::JSXFragment,
        Expr::TsInstantiation,
        Expr::PrivateName,
        Expr::Invalid,
        Expr::SuperProp(None),
        Expr::Yield(None),
    ];
    for expr in terminals {
        assert_eq!(search(&expr), vec![]);
    }
}

#[test]
fn call_searches_callee_only_without_arguments() {
    let no_args = Expr::Call { callee: Some(boxed(sql("callee"))), args: vec![] };
    assert_eq!(queries(&search(&no_args)), vec!["callee"]);
    let with_args = Expr::Call {
        callee: Some(boxed(sql("callee"))),
        args: vec![sql("a"), ident("x"), sql("b")],
    };
    assert_eq!(queries(&search(&with_args)), vec!["a", "b"]);
    let no_callee = Expr::Call { callee: None, args: vec![sql("a")] };
    assert_eq!(queries(&search(&no_callee)), vec!["a"]);
}

#[test]
fn new_searches_callee_and_arguments() {
    let with_args = Expr::New { callee: boxed(sql("c")), args: Some(vec![sql("a"), sql("b")]) };
    assert_eq!(queries(&search(&with_args)), vec!["c", "a", "b"]);
    let bare = Expr::New { callee: boxed(sql("c")), args: None };
    assert_eq!(queries(&search(&bare)), vec!["c"]);
}

#[test]
fn lists_are_searched_from_left_to_right() {
    let array = Expr::Array(vec![Some(sql("a")), None, Some(sql("b"))]);
    assert_eq!(queries(&search(&array)), vec!["a", "b"]);
    assert_eq!(queries(&search(&Expr::Sequence(vec![sql("a"), sql("b"), sql("c")]))), vec!["a", "b", "c"]);
    assert_eq!(queries(&search(&Expr::Tpl(vec![sql("a"), sql("b")]))), vec!["a", "b"]);
    assert_eq!(queries(&search(&Expr::Bin(boxed(sql("l")), boxed(sql("r"))))), vec!["l", "r"]);
    let cond = Expr::Cond(boxed(sql("t")), boxed(sql("c")), boxed(sql("a")));
    assert_eq!(queries(&search(&cond)), vec!["t", "c", "a"]);
    let chain = Expr::OptChain(OptChainBase::Call { callee: boxed(sql("f")), args: vec![sql("x"), sql("y")] });
    assert_eq!(queries(&search(&chain)), vec!["f", "x", "y"]);
}

#[test]
fn object_properties_are_searched() {
    let object = Expr::Object(vec![
        Prop::Spread,
        Prop::Shorthand,
        Prop::KeyValue(boxed(sql("kv"))),
        Prop::Assign(boxed(sql("assign"))),
        Prop::Getter(Some(block(vec![expr_stmt(sql("get"))]))),
        Prop::Setter(Some(block(vec![expr_stmt(sql("set"))]))),
        Prop::Method(Some(block(vec![expr_stmt(sql("method"))]))),
        Prop::Method(None),
    ]);
    let sqls = search(&object);
    assert_eq!(queries(&sqls), vec!["kv", "assign", "get", "set", "method"]);
    for sql in &sqls {
        assert_eq!(sql.binding_name, Some("q".to_string()));
        assert_eq!(sql.span, HERE);
    }
}

#[test]
fn arrow_searches_parameters_and_body() {
    let arrow = Expr::Arrow {
        params: vec![
            Pat::Ident("a".to_string()),
            Pat::Assign(boxed(sql("default"))),
            Pat::Expr(boxed(sql("pattern"))),
            Pat::Array,
            Pat::Rest,
            Pat::Object,
            Pat::Invalid,
        ],
        body: ArrowBody::Expr(boxed(sql("body"))),
    };
    assert_eq!(queries(&search(&arrow)), vec!["default", "pattern", "body"]);
    let with_block = Expr::Arrow {
        params: vec![],
        body: ArrowBody::Block(block(vec![expr_stmt(sql("first")), declare("inner", sql("second"))])),
    };
    assert_eq!(
        search(&with_block),
        vec![found("first", Some("q"), HERE), found("second", Some("inner"), THERE)]
    );
}

#[test]
fn class_members_are_all_searched() {
    let class = Expr::Class(vec![
        ClassMember::Constructor(Some(block(vec![expr_stmt(sql("ctor1")), expr_stmt(sql("ctor2"))]))),
        ClassMember::Method(Some(block(vec![expr_stmt(sql("method"))]))),
        ClassMember::PrivateMethod(Some(block(vec![expr_stmt(sql("private method"))]))),
        ClassMember::ClassProp(Some(boxed(sql("prop1")))),
        ClassMember::ClassProp(None),
        ClassMember::ClassProp(Some(boxed(sql("prop2")))),
        ClassMember::PrivateProp(Some(boxed(sql("private prop")))),
        ClassMember::TsIndexSignature,
        ClassMember::Empty,
        ClassMember::StaticBlock(block(vec![expr_stmt(sql("static"))])),
        ClassMember::AutoAccessor { key: Key::Ident("acc".to_string()), value: Some(boxed(sql("accessor"))) },
        ClassMember::AutoAccessor { key: Key::Num, value: Some(boxed(sql("numbered"))) },
        ClassMember::AutoAccessor { key: Key::Ident("none".to_string()), value: None },
        ClassMember::Constructor(None),
    ]);
    let sqls = search(&class);
    assert_eq!(
        queries(&sqls),
        vec![
            "ctor1", "ctor2", "method", "private method", "prop1", "prop2", "private prop",
            "static", "accessor", "numbered"
        ]
    );
    assert_eq!(sqls[8], found("accessor", Some("acc"), HERE));
    assert_eq!(sqls[9], found("numbered", None, HERE));
    assert_eq!(sqls[0], found("ctor1", Some("q"), HERE));
}

#[test]
fn tagged_template_deep_in_a_class_static_block() {
    let nested = Stmt::If {
        cons: Box::new(Stmt::Block(block(vec![Stmt::Try {
            block: block(vec![declare(
                "someQuery",
                Expr::Await(boxed(Expr::Call {
                    callee: Some(boxed(Expr::Member(boxed(ident("db"))))),
                    args: vec![Expr::Paren(boxed(sql("SELECT * FROM items")))],
                })),
            )]),
            handler: None,
            finalizer: None,
        }]))),
        alt: None,
    };
    let class = Stmt::Decl(Decl::Class {
        members: vec![ClassMember::StaticBlock(block(vec![nested]))],
        span: HERE,
    });
    let top_level = declare("someQuery", sql("SELECT * FROM items"));
    assert_eq!(search_stmt(&class), vec![found("SELECT * FROM items", Some("someQuery"), THERE)]);
    assert_eq!(search_stmt(&class), search_stmt(&top_level));
}

#[test]
fn class_members_can_be_searched_on_their_own() {
    let members = vec![
        ClassMember::ClassProp(Some(boxed(sql("a")))),
        ClassMember::StaticBlock(block(vec![expr_stmt(sql("b"))])),
    ];
    let mut sqls = vec![];
    get_sql_from_class_members(&mut sqls, &None, &members, &THERE, &"sql".to_string());
    assert_eq!(sqls, vec![found("a", None, THERE), found("b", None, THERE)]);
}

#[test]
fn block_body_names_only_expression_statements() {
    let body = Some(block(vec![
        expr_stmt(sql("expression")),
        Stmt::Return { arg: Some(boxed(sql("returned"))), span: THERE },
        declare("inner", sql("declared")),
    ]));
    let mut sqls = vec![];
    process_block_stmt_as_expr(&body, &mut sqls, &Some("outer".to_string()), &HERE, &"sql".to_string());
    assert_eq!(
        sqls,
        vec![
            found("expression", Some("outer"), HERE),
            found("returned", None, THERE),
            found("declared", Some("inner"), THERE),
        ]
    );
    let mut none = vec![];
    process_block_stmt_as_expr(&None, &mut none, &None, &HERE, &"sql".to_string());
    assert_eq!(none, vec![]);
}

#[test]
fn only_a_plain_name_names_a_declaration() {
    let named = |name: Pat| VarDeclarator { name, init: None };
    assert_eq!(get_var_decl_name(&named(Pat::Ident("someQuery".to_string()))), Some("someQuery".to_string()));
    assert_eq!(get_var_decl_name(&named(Pat::Array)), None);
    assert_eq!(get_var_decl_name(&named(Pat::Rest)), None);
    assert_eq!(get_var_decl_name(&named(Pat::Object)), None);
    assert_eq!(get_var_decl_name(&named(Pat::Assign(boxed(Expr::Lit)))), None);
    assert_eq!(get_var_decl_name(&named(Pat::Invalid)), None);
    assert_eq!(get_var_decl_name(&named(Pat::Expr(boxed(ident("x"))))), None);
}

#[test]
fn keys_name_the_values_of_accessors() {
    assert_eq!(get_var_decl_name_from_key(&Key::Private("secret".to_string())), Some("secret".to_string()));
    assert_eq!(get_var_decl_name_from_key(&Key::Ident("plain".to_string())), Some("plain".to_string()));
    assert_eq!(get_var_decl_name_from_key(&Key::Str("text".to_string())), Some("text".to_string()));
    assert_eq!(get_var_decl_name_from_key(&Key::Num), None);
    assert_eq!(get_var_decl_name_from_key(&Key::Computed), None);
    assert_eq!(get_var_decl_name_from_key(&Key::BigInt), None);
}

#[test]
fn var_decl_gives_queries_under_its_name() {
    let decl = VarDeclarator { name: Pat::Ident("someQuery".to_string()), init: Some(boxed(sql("SELECT * FROM items;"))) };
    assert_eq!(
        get_sql_from_var_decl(&decl, &THERE, &"sql".to_string()),
        vec![found("SELECT * FROM items;", Some("someQuery"), THERE)]
    );
    let without_init = VarDeclarator { name: Pat::Ident("x".to_string()), init: None };
    assert_eq!(get_sql_from_var_decl(&without_init, &THERE, &"sql".to_string()), vec![]);
}

#[test]
fn var_decl_without_plain_name_is_searched_without_a_name() {
    for pattern in [Pat::Array, Pat::Object, Pat::Rest, Pat::Invalid] {
        let destructured = VarDeclarator { name: pattern, init: Some(boxed(sql("SELECT 1"))) };
        assert_eq!(
            get_sql_from_var_decl(&destructured, &THERE, &"sql".to_string()),
            vec![found("SELECT 1", None, THERE)]
        );
    }
    let with_default = VarDeclarator {
        name: Pat::Assign(boxed(Expr::Lit)),
        init: Some(boxed(Expr::Await(boxed(tagged("sql", &["a", "b"]))))),
    };
    assert_eq!(
        get_sql_from_var_decl(&with_default, &HERE, &"sql".to_string()),
        vec![found("a", None, HERE), found("b", None, HERE)]
    );
    let without_init = VarDeclarator { name: Pat::Array, init: None };
    assert_eq!(get_sql_from_var_decl(&without_init, &THERE, &"sql".to_string()), vec![]);
}

#[test]
fn every_initializer_of_a_declaration_is_searched() {
    let stmt = Stmt::Decl(Decl::Var {
        decls: vec![
            VarDeclarator { name: Pat::Ident("first".to_string()), init: Some(boxed(sql("a"))) },
            VarDeclarator { name: Pat::Array, init: Some(boxed(Expr::Await(boxed(sql("b"))))) },
            VarDeclarator { name: Pat::Ident("unset".to_string()), init: None },
            VarDeclarator { name: Pat::Object, init: None },
            VarDeclarator { name: Pat::Ident("last".to_string()), init: Some(boxed(ident("x"))) },
        ],
        span: HERE,
    });
    assert_eq!(search_stmt(&stmt), vec![found("a", Some("first"), HERE), found("b", None, HERE)]);
}

#[test]
fn statements_are_searched_in_their_bodies() {
    let body = |query: &str| Box::new(expr_stmt(sql(query)));
    assert_eq!(queries(&search_stmt(&Stmt::With(body("with")))), vec!["with"]);
    assert_eq!(queries(&search_stmt(&Stmt::Labeled(body("labeled")))), vec!["labeled"]);
    assert_eq!(queries(&search_stmt(&Stmt::While(body("while")))), vec!["while"]);
    assert_eq!(queries(&search_stmt(&Stmt::DoWhile(body("do")))), vec!["do"]);
    assert_eq!(queries(&search_stmt(&Stmt::For(body("for")))), vec!["for"]);
    assert_eq!(queries(&search_stmt(&Stmt::ForIn(body("in")))), vec!["in"]);
    assert_eq!(queries(&search_stmt(&Stmt::ForOf(body("of")))), vec!["of"]);
    assert_eq!(queries(&search_stmt(&Stmt::If { cons: body("then"), alt: Some(body("else")) })), vec!["then", "else"]);
    assert_eq!(queries(&search_stmt(&Stmt::If { cons: body("then"), alt: None })), vec!["then"]);
    let switch = Stmt::Switch(vec![vec![expr_stmt(sql("a")), expr_stmt(sql("b"))], vec![], vec![expr_stmt(sql("c"))]]);
    assert_eq!(queries(&search_stmt(&switch)), vec!["a", "b", "c"]);
    let try_stmt = Stmt::Try {
        block: block(vec![expr_stmt(sql("try"))]),
        handler: Some(block(vec![expr_stmt(sql("catch"))])),
        finalizer: Some(block(vec![expr_stmt(sql("finally"))])),
    };
    assert_eq!(queries(&search_stmt(&try_stmt)), vec!["try", "catch", "finally"]);
    let function = Stmt::Decl(Decl::Fn(Some(block(vec![Stmt::Return { arg: Some(boxed(sql("fn"))), span: HERE }]))));
    assert_eq!(search_stmt(&function), vec![found("fn", None, HERE)]);
    assert_eq!(search_stmt(&Stmt::Throw { arg: boxed(sql("thrown")), span: HERE }), vec![found("thrown", None, HERE)]);
    assert_eq!(search_stmt(&expr_stmt(sql("plain"))), vec![found("plain", None, THERE)]);
}

#[test]
fn statements_without_bodies_give_nothing() {
    for stmt in [
        Stmt::Empty,
        Stmt::Debugger,
        Stmt::Break,
        Stmt::Continue,
        Stmt::Return { arg: None, span: HERE },
        Stmt::Decl(Decl::Fn(None)),
        Stmt::Decl(Decl::Other),
        Stmt::Block(block(vec![])),
    ] {
        assert_eq!(search_stmt(&stmt), vec![]);
    }
}

#[test]
fn tree_without_tagged_templates_gives_no_query() {
    let declarations = Stmt::Block(block(vec![
        declare("params", Expr::Array(vec![Some(ident("string")), Some(ident("number"))])),
        declare("result", Expr::Object(vec![Prop::KeyValue(boxed(ident("id")))])),
        expr_stmt(Expr::Tpl(vec![ident("sql")])),
        expr_stmt(tagged("css", &["color: red"])),
    ]));
    assert_eq!(search_stmt(&declarations), vec![]);
}

#[test]
fn number_of_groups_is_the_number_of_templates() {
    let tree = Stmt::Block(block(vec![
        declare("a", tagged("sql", &["a1", "a2"])),
        expr_stmt(Expr::Sequence(vec![tagged("sql", &["b"]), tagged("other", &["x"]), tagged("sql", &["c1", "c2", "c3"])])),
    ]));
    let sqls = search_stmt(&tree);
    assert_eq!(queries(&sqls), vec!["a1", "a2", "b", "c1", "c2", "c3"]);
    assert_eq!(sqls[0].binding_name, Some("a".to_string()));
    assert_eq!(sqls[2].binding_name, None);
}
