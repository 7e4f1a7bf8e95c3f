//! The syntax tree of a Sage program, as the checker reads it.
//!
//! Floating-point literals are kept as the text they were written as: the
//! checker only needs to know that they are floats.

use vstd::prelude::*;

verus! {

/// A region of source text, by byte offsets.
#[derive(Debug, Clone, Copy, PartialEq, Eq)]
pub struct Span {
    /// Offset of the first byte.
    pub start: usize,
    /// Offset one past the last byte.
    pub end: usize,
}

/// A name as written in the source.
#[derive(Debug)]
pub struct Ident {
    /// The name.
    pub name: String,
    /// Where it was written.
    pub span: Span,
}

/// A type as written in the source.
#[derive(Debug)]
pub enum TypeExpr {
    Int,
    Float,
    Bool,
    String,
    Unit,
    List(Box<TypeExpr>),
    Option(Box<TypeExpr>),
    /// The result of an LLM inference: `Oracle<T>`.
    Oracle(Box<TypeExpr>),
    Agent(Ident),
    /// A named type with its type arguments (possibly none).
    Named(Ident, Vec<TypeExpr>),
    Fn(Vec<TypeExpr>, Box<TypeExpr>),
    /// `Map<K, V>`.
    Dict(Box<TypeExpr>, Box<TypeExpr>),
    Tuple(Vec<TypeExpr>),
    Result(Box<TypeExpr>, Box<TypeExpr>),
    /// The built-in error type.
    Error,
}

/// A literal value.
#[derive(Debug)]
pub enum Literal {
    Int(i64),
    /// A floating-point literal, as written.
    Float(String),
    Bool(bool),
    String(String),
}

/// Binary operators.
#[derive(Debug, Clone, Copy, PartialEq, Eq)]
pub enum BinOp {
    Add,
    Sub,
    Mul,
    Div,
    Eq,
    Ne,
    Lt,
    Le,
    Gt,
    Ge,
    And,
    Or,
    /// String concatenation `++`.
    Concat,
}

/// Unary operators.
#[derive(Debug, Clone, Copy, PartialEq, Eq)]
pub enum UnaryOp {
    /// Arithmetic negation `-`.
    Neg,
    /// Logical negation `!`.
    Not,
}

/// A piece of an interpolated string.
#[derive(Debug)]
pub enum StringPart {
    Literal(String),
    /// An interpolated name, such as `x` or `self.topic`.
    Interpolation(Ident),
}

/// An interpolated string.
#[derive(Debug)]
pub struct StringTemplate {
    pub parts: Vec<StringPart>,
    pub span: Span,
}

/// A `name: value` initializer in a spawn or record construction.
#[derive(Debug)]
pub struct FieldInit {
    pub name: Ident,
    pub value: Expr,
    pub span: Span,
}

/// One arm of a `match`.
#[derive(Debug)]
pub struct MatchArm {
    pub pattern: Pattern,
    pub body: Expr,
    pub span: Span,
}

/// A closure parameter, with its type if one was written.
#[derive(Debug)]
pub struct ClosureParam {
    pub name: Ident,
    pub ty: Option<TypeExpr>,
    pub span: Span,
}

/// A `key: value` entry of a map literal.
#[derive(Debug)]
pub struct MapEntry {
    pub key: Expr,
    pub value: Expr,
    pub span: Span,
}

/// An expression.
#[allow(inconsistent_fields)]
#[derive(Debug)]
pub enum Expr {
    Literal { value: Literal, span: Span },
    Var { name: Ident, span: Span },
    List { elements: Vec<Expr>, span: Span },
    Binary { op: BinOp, left: Box<Expr>, right: Box<Expr>, span: Span },
    Unary { op: UnaryOp, operand: Box<Expr>, span: Span },
    Call { name: Ident, args: Vec<Expr>, span: Span },
    SelfField { field: Ident, span: Span },
    SelfMethodCall { method: Ident, args: Vec<Expr>, span: Span },
    Infer { template: StringTemplate, result_ty: Option<TypeExpr>, span: Span },
    Spawn { agent: Ident, fields: Vec<FieldInit>, span: Span },
    Await { handle: Box<Expr>, span: Span },
    Send { handle: Box<Expr>, message: Box<Expr>, span: Span },
    Emit { value: Box<Expr>, span: Span },
    Paren { inner: Box<Expr>, span: Span },
    StringInterp { template: StringTemplate, span: Span },
    Match { scrutinee: Box<Expr>, arms: Vec<MatchArm>, span: Span },
    RecordConstruct { name: Ident, fields: Vec<FieldInit>, span: Span },
    FieldAccess { object: Box<Expr>, field: Ident, span: Span },
    Receive { span: Span },
    Try { expr: Box<Expr>, span: Span },
    Catch { expr: Box<Expr>, error_bind: Option<Ident>, recovery: Box<Expr>, span: Span },
    Closure { params: Vec<ClosureParam>, body: Box<Expr>, span: Span },
    Tuple { elements: Vec<Expr>, span: Span },
    TupleIndex { tuple: Box<Expr>, index: usize, span: Span },
    /// A map literal `{ k: v, ... }`.
    Dict { entries: Vec<MapEntry>, span: Span },
    VariantConstruct { enum_name: Ident, variant: Ident, payload: Option<Box<Expr>>, span: Span },
    ToolCall { tool: Ident, function: Ident, args: Vec<Expr>, span: Span },
}

/// The span of an expression.
pub open spec fn expr_span(e: Expr) -> Span {
    match e {
        Expr::Literal { span, .. } => span,
        Expr::Var { span, .. } => span,
        Expr::List { span, .. } => span,
        Expr::Binary { span, .. } => span,
        Expr::Unary { span, .. } => span,
        Expr::Call { span, .. } => span,
        Expr::SelfField { span, .. } => span,
        Expr::SelfMethodCall { span, .. } => span,
        Expr::Infer { span, .. } => span,
        Expr::Spawn { span, .. } => span,
        Expr::Await { span, .. } => span,
        Expr::Send { span, .. } => span,
        Expr::Emit { span, .. } => span,
        Expr::Paren { span, .. } => span,
        Expr::StringInterp { span, .. } => span,
        Expr::Match { span, .. } => span,
        Expr::RecordConstruct { span, .. } => span,
        Expr::FieldAccess { span, .. } => span,
        Expr::Receive { span } => span,
        Expr::Try { span, .. } => span,
        Expr::Catch { span, .. } => span,
        Expr::Closure { span, .. } => span,
        Expr::Tuple { span, .. } => span,
        Expr::TupleIndex { span, .. } => span,
        Expr::Dict { span, .. } => span,
        Expr::VariantConstruct { span, .. } => span,
        Expr::ToolCall { span, .. } => span,
    }
}

impl Expr {
    /// The span of this expression.
    pub fn span(&self) -> (r: Span)
        ensures
            r == expr_span(*self),
    {
        match self {
            Expr::Literal { span, .. } => *span,
            Expr::Var { span, .. } => *span,
            Expr::List { span, .. } => *span,
            Expr::Binary { span, .. } => *span,
            Expr::Unary { span, .. } => *span,
            Expr::Call { span, .. } => *span,
            Expr::SelfField { span, .. } => *span,
            Expr::SelfMethodCall { span, .. } => *span,
            Expr::Infer { span, .. } => *span,
            Expr::Spawn { span, .. } => *span,
            Expr::Await { span, .. } => *span,
            Expr::Send { span, .. } => *span,
            Expr::Emit { span, .. } => *span,
            Expr::Paren { span, .. } => *span,
            Expr::StringInterp { span, .. } => *span,
            Expr::Match { span, .. } => *span,
            Expr::RecordConstruct { span, .. } => *span,
            Expr::FieldAccess { span, .. } => *span,
            Expr::Receive { span } => *span,
            Expr::Try { span, .. } => *span,
            Expr::Catch { span, .. } => *span,
            Expr::Closure { span, .. } => *span,
            Expr::Tuple { span, .. } => *span,
            Expr::TupleIndex { span, .. } => *span,
            Expr::Dict { span, .. } => *span,
            Expr::VariantConstruct { span, .. } => *span,
            Expr::ToolCall { span, .. } => *span,
        }
    }
}

/// A pattern in a `match` arm or a `for` loop.
#[allow(inconsistent_fields)]
#[derive(Debug)]
pub enum Pattern {
    Wildcard { span: Span },
    Binding { name: Ident, span: Span },
    /// `Enum::Variant(payload)` or `Variant(payload)`.
    Variant { enum_name: Option<Ident>, variant: Ident, payload: Option<Box<Pattern>>, span: Span },
    Literal { value: Literal, span: Span },
    Tuple { elements: Vec<Pattern>, span: Span },
}

/// A block of statements.
#[derive(Debug)]
pub struct Block {
    pub stmts: Vec<Stmt>,
    pub span: Span,
}

/// The `else` part of an `if`.
#[derive(Debug)]
pub enum ElseBranch {
    Block(Block),
    ElseIf(Box<Stmt>),
}

/// A statement.
#[allow(inconsistent_fields)]
#[derive(Debug)]
pub enum Stmt {
    Let { name: Ident, ty: Option<TypeExpr>, value: Expr, span: Span },
    Assign { name: Ident, value: Expr, span: Span },
    Return { value: Option<Expr>, span: Span },
    If { condition: Expr, then_block: Block, else_block: Option<ElseBranch>, span: Span },
    For { pattern: Pattern, iter: Expr, body: Block, span: Span },
    While { condition: Expr, body: Block, span: Span },
    Loop { body: Block, span: Span },
    Break { span: Span },
    Expr { expr: Expr, span: Span },
    LetTuple { names: Vec<Ident>, ty: Option<TypeExpr>, value: Expr, span: Span },
}

/// A belief (state field) of an agent.
#[derive(Debug)]
pub struct BeliefDecl {
    /// Whether the belief is `@persistent` (kept across restarts).
    pub is_persistent: bool,
    pub name: Ident,
    pub ty: TypeExpr,
    pub span: Span,
}

/// The event an agent handler reacts to.
#[derive(Debug)]
pub enum EventKind {
    Start,
    Message { param_name: Ident, param_ty: TypeExpr },
    Stop,
    Error { param_name: Ident },
}

/// An event handler of an agent.
#[derive(Debug)]
pub struct HandlerDecl {
    pub event: EventKind,
    pub body: Block,
    pub span: Span,
}

/// An agent declaration.
#[derive(Debug)]
pub struct AgentDecl {
    pub is_pub: bool,
    pub name: Ident,
    pub receives: Option<TypeExpr>,
    pub beliefs: Vec<BeliefDecl>,
    pub handlers: Vec<HandlerDecl>,
    pub span: Span,
}

/// A function parameter.
#[derive(Debug)]
pub struct Param {
    pub name: Ident,
    pub ty: TypeExpr,
    pub span: Span,
}

/// One step of a protocol: `Sender -> Receiver: MessageType`.
#[derive(Debug)]
pub struct ProtocolStep {
    pub sender: Ident,
    pub receiver: Ident,
    pub message_type: TypeExpr,
    pub span: Span,
}

/// A protocol declaration: the message exchange between roles, in order.
#[derive(Debug)]
pub struct ProtocolDecl {
    pub is_pub: bool,
    pub name: Ident,
    pub steps: Vec<ProtocolStep>,
    pub span: Span,
}

/// A function declaration.
#[derive(Debug)]
pub struct FnDecl {
    pub is_pub: bool,
    pub name: Ident,
    pub params: Vec<Param>,
    pub return_ty: TypeExpr,
    pub is_fallible: bool,
    pub body: Block,
    pub span: Span,
}

/// A field of a record declaration.
#[derive(Debug)]
pub struct RecordField {
    pub name: Ident,
    pub ty: TypeExpr,
    pub span: Span,
}

/// A record declaration.
#[derive(Debug)]
pub struct RecordDecl {
    pub is_pub: bool,
    pub name: Ident,
    pub fields: Vec<RecordField>,
    pub span: Span,
}

/// A variant of an enum declaration.
#[derive(Debug)]
pub struct EnumVariant {
    pub name: Ident,
    pub payload: Option<TypeExpr>,
    pub span: Span,
}

/// An enum declaration.
#[derive(Debug)]
pub struct EnumDecl {
    pub is_pub: bool,
    pub name: Ident,
    pub variants: Vec<EnumVariant>,
    pub span: Span,
}

/// A constant declaration.
#[derive(Debug)]
pub struct ConstDecl {
    pub is_pub: bool,
    pub name: Ident,
    pub ty: TypeExpr,
    pub value: Expr,
    pub span: Span,
}

/// What a `use` declaration imports.
#[derive(Debug)]
pub enum UseKind {
    /// `use a::b::item` or `use a::b::item as alias`.
    Simple(Option<Ident>),
    /// `use a::b::{x, y as z}`: each item with its alias.
    Group(Vec<(Ident, Option<Ident>)>),
    /// `use a::b::*`: every public item of the module.
    Glob,
}

/// A `use` declaration.
#[derive(Debug)]
pub struct UseDecl {
    /// Whether it is `pub use`.
    pub is_pub: bool,
    /// The path segments after `use` (for a group or a glob, the module).
    pub path: Vec<Ident>,
    pub kind: UseKind,
    pub span: Span,
}

/// A parsed program (one module).
#[derive(Debug)]
pub struct Program {
    /// The module's `use` declarations.
    pub use_decls: Vec<UseDecl>,
    pub agents: Vec<AgentDecl>,
    pub functions: Vec<FnDecl>,
    pub records: Vec<RecordDecl>,
    pub enums: Vec<EnumDecl>,
    pub consts: Vec<ConstDecl>,
    /// The agent named by `run`, if the program is an executable.
    pub run_agent: Option<Ident>,
}

} // verus!
