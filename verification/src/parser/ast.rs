//! The syntax tree of a TypeScript or JavaScript module, as far as the
//! search for tagged templates reads it. Each kind of node keeps the
//! children that are searched and leaves out the rest.

use crate::common::sql::Span;
use vstd::prelude::*;

verus! {

/// An expression.
#[derive(Debug)]
#[allow(inconsistent_fields)]
pub enum Expr {
    This,
    /// The elements of an array literal; a hole is `None`.
    Array(Vec<Option<Expr>>),
    Object(Vec<Prop>),
    /// A function expression.
    Fn,
    Unary(Box<Expr>),
    Update(Box<Expr>),
    Bin(Box<Expr>, Box<Expr>),
    /// The right side of an assignment.
    Assign(Box<Expr>),
    /// The object of a member access.
    Member(Box<Expr>),
    /// The expression of `super[expr]`; `None` for `super.name`.
    SuperProp(Option<Box<Expr>>),
    /// Test, consequent and alternate.
    Cond(Box<Expr>, Box<Expr>, Box<Expr>),
    /// A call; the callee is `None` where it is `super` or `import`.
    Call { callee: Option<Box<Expr>>, args: Vec<Expr> },
    /// `new callee(args)`; the arguments are `None` for `new callee`.
    New { callee: Box<Expr>, args: Option<Vec<Expr>> },
    Sequence(Vec<Expr>),
    /// An identifier, as it is printed.
    Ident(String),
    Lit,
    /// The interpolated expressions of a template without a tag.
    Tpl(Vec<Expr>),
    /// A tagged template: the tag, the raw texts between the
    /// interpolations, and the interpolated expressions.
    TaggedTpl { tag: Box<Expr>, quasis: Vec<String>, exprs: Vec<Expr> },
    Arrow { params: Vec<Pat>, body: ArrowBody },
    Class(Vec<ClassMember>),
    Yield(Option<Box<Expr>>),
    MetaProp,
    Await(Box<Expr>),
    Paren(Box<Expr>),
    JSXMember,
    JSXNamespacedName,
    JSXEmpty,
    JSXElement,
    JSXFragment,
    TsTypeAssertion(Box<Expr>),
    TsConstAssertion(Box<Expr>),
    TsNonNull(Box<Expr>),
    TsAs(Box<Expr>),
    /// An expression with type arguments.
    TsInstantiation,
    TsSatisfies(Box<Expr>),
    PrivateName,
    OptChain(OptChainBase),
    Invalid,
}

/// What an optional chain ends in.
#[derive(Debug)]
pub enum OptChainBase {
    /// The object of `obj?.prop`.
    Member(Box<Expr>),
    Call { callee: Box<Expr>, args: Vec<Expr> },
}

/// A property of an object literal.
#[derive(Debug)]
pub enum Prop {
    Spread,
    Shorthand,
    /// The value of `key: value`.
    KeyValue(Box<Expr>),
    /// The value of `key = value`.
    Assign(Box<Expr>),
    Getter(Option<BlockStmt>),
    Setter(Option<BlockStmt>),
    Method(Option<BlockStmt>),
}

/// The body of an arrow function.
#[derive(Debug)]
pub enum ArrowBody {
    Block(BlockStmt),
    Expr(Box<Expr>),
}

/// A pattern, in a binding or a parameter.
#[derive(Debug)]
pub enum Pat {
    /// A plain name.
    Ident(String),
    Array,
    Rest,
    Object,
    /// The default value of `pattern = value`.
    Assign(Box<Expr>),
    Invalid,
    Expr(Box<Expr>),
}

/// The key of a class member.
#[derive(Debug)]
pub enum Key {
    /// A private name, without its `#`.
    Private(String),
    Ident(String),
    Str(String),
    Num,
    Computed,
    BigInt,
}

/// A member of a class.
#[derive(Debug)]
pub enum ClassMember {
    Constructor(Option<BlockStmt>),
    Method(Option<BlockStmt>),
    PrivateMethod(Option<BlockStmt>),
    /// The initial value of a property.
    ClassProp(Option<Box<Expr>>),
    PrivateProp(Option<Box<Expr>>),
    TsIndexSignature,
    Empty,
    StaticBlock(BlockStmt),
    AutoAccessor { key: Key, value: Option<Box<Expr>> },
}

/// A block of statements.
#[derive(Debug)]
pub struct BlockStmt {
    pub stmts: Vec<Stmt>,
}

/// One name of a variable declaration with its initial value.
#[derive(Debug)]
pub struct VarDeclarator {
    pub name: Pat,
    pub init: Option<Box<Expr>>,
}

/// A declaration.
#[derive(Debug)]
pub enum Decl {
    Class { members: Vec<ClassMember>, span: Span },
    /// The body of a function.
    Fn(Option<BlockStmt>),
    Var { decls: Vec<VarDeclarator>, span: Span },
    /// A declaration of types only.
    Other,
}

/// A statement.
#[derive(Debug)]
#[allow(inconsistent_fields)]
pub enum Stmt {
    Block(BlockStmt),
    Empty,
    Debugger,
    With(Box<Stmt>),
    Return { arg: Option<Box<Expr>>, span: Span },
    Labeled(Box<Stmt>),
    Break,
    Continue,
    If { cons: Box<Stmt>, alt: Option<Box<Stmt>> },
    /// The statements of each case.
    Switch(Vec<Vec<Stmt>>),
    Throw { arg: Box<Expr>, span: Span },
    Try { block: BlockStmt, handler: Option<BlockStmt>, finalizer: Option<BlockStmt> },
    While(Box<Stmt>),
    DoWhile(Box<Stmt>),
    For(Box<Stmt>),
    ForIn(Box<Stmt>),
    ForOf(Box<Stmt>),
    Decl(Decl),
    Expr { expr: Box<Expr>, span: Span },
}

} // verus!
