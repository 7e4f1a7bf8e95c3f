//! The type checker and name resolver for Sage programs.
//!
//! Checking is a walk over the syntax tree that threads a state: the errors
//! found so far, the stack of local scopes, the beliefs read so far, and the
//! type each agent emits. The spec functions of this module give, for each
//! construct, the state after checking it and the type it has; the checker's
//! methods are proved to compute exactly that.

use vstd::prelude::*;
use crate::ast::BinOp;
use crate::ast::Expr;
use crate::ast::EnumDecl;
use crate::ast::RecordDecl;
use crate::ast::AgentDecl;
use crate::ast::ConstDecl;
use crate::ast::EventKind;
use crate::ast::FnDecl;
use crate::ast::HandlerDecl;
use crate::ast::Program;
use crate::ast::Block;
use crate::ast::ElseBranch;
use crate::ast::Stmt;
use crate::ast::FieldInit;
use crate::ast::MatchArm;
use crate::ast::MapEntry;
use crate::ast::StringPart;
use crate::ast::expr_span;
use crate::ast::Ident;
use crate::ast::Literal;
use crate::ast::Pattern;
use crate::ast::Span;
use crate::ast::UnaryOp;
use crate::error::CheckError;
use crate::error::ErrV;
use crate::names::NameMap;
use crate::names::NameSet;
use crate::scope::AgentInfo;
use crate::scope::ConstInfo;
use crate::scope::EnumInfo;
use crate::scope::FunctionInfo;
use crate::scope::RecordInfo;
use crate::scope::payload_view;
use crate::scope::names_view;
use crate::decls::declare_names;
use crate::decls::first_decl;
use crate::decls::lemma_declare_names;
use crate::decls::agent_items;
use crate::decls::function_items;
use crate::decls::record_items;
use crate::decls::enum_items;
use crate::decls::const_items;
use crate::decls::builtin_enum_names;
use crate::decls::beliefs_map;
use crate::decls::fields_map;
use crate::decls::agent_models;
use crate::decls::function_models;
use crate::decls::record_models;
use crate::decls::enum_models;
use crate::decls::const_models;
use crate::decls::collected;
use crate::decls::collect_errors;
use crate::builtins::spec_builtins;
use crate::builtins::spec_builtin_enums;
use crate::builtins::spec_builtin_tools;
use crate::scope::Scope;
use crate::scope::SymbolTable;
use crate::scope::ToolInfo;
use crate::scope::variant_index;
use crate::scope::lemma_variant_index;
use crate::types::Type;
use crate::types::TypeV;
use crate::types::display;
use crate::types::unwrap_inferred_v;
use crate::types::compatible;
use crate::types::view_types;
use crate::types::lemma_view_types;
use crate::resolve::resolve_type;
use crate::rules::self_suffix;
use crate::rules::declared;
use crate::rules::param_types;
use crate::rules::types_of;
use crate::rules::provides;
use crate::rules::expect_v;
use crate::rules::unhandled_v;
use crate::rules::expr_v;
use crate::rules::self_field_v;
use crate::rules::infer_used;
use crate::rules::interp_v;
use crate::rules::try_context_v;
use crate::rules::field_access_v;
use crate::rules::exprs_v;
use crate::rules::args_v;
use crate::rules::same_v;
use crate::rules::list_v;
use crate::rules::inits_v;
use crate::rules::missing_beliefs_v;
use crate::rules::missing_fields_v;
use crate::rules::spawn_v;
use crate::rules::record_v;
use crate::rules::send_v;
use crate::rules::arms_have_wildcard;
use crate::rules::pattern_variant;
use crate::rules::pattern_bool;
use crate::rules::arms_cover_variant;
use crate::rules::arms_cover_bool;
use crate::rules::exhaustive;
use crate::rules::arms_v;
use crate::rules::match_v;
use crate::rules::catch_v;
use crate::rules::closure_params_v;
use crate::rules::closure_v;
use crate::rules::entries_v;
use crate::rules::dict_v;
use crate::rules::variant_v;
use crate::rules::tool_call_v;
use crate::rules::call_v;
use crate::rules::arity_err;
use crate::rules::not_map_v;
use crate::rules::builtin_v;
use crate::rules::builtin_kind;
use crate::rules::tool_param_types;
use crate::rules::await_type;
use crate::rules::bodies_v;
use crate::rules::module_bodies_v;
use crate::rules::consts_v;
use crate::rules::functions_v;
use crate::rules::agents_v;
use crate::rules::entry_v;
use crate::rules::const_v;
use crate::rules::function_v;
use crate::rules::params_v;
use crate::rules::after_function;
use crate::rules::fn_ctx;
use crate::rules::agent_v;
use crate::rules::unused_v;
use crate::rules::handlers_v;
use crate::rules::handler_v;
use crate::rules::after_agent;
use crate::rules::agent_ctx;
use crate::rules::first_message_type;
use crate::rules::has_start;
use crate::rules::has_error_handler;
use crate::rules::is_const;
use crate::rules::block_v;
use crate::rules::stmt_v;
use crate::rules::iter_elem;
use crate::rules::bind_all_v;
use crate::rules::loop_body_v;
use crate::rules::scoped_block_v;
use crate::rules::cond_v;
use crate::rules::digit_char;
use crate::rules::decimal;

verus! {

// =========================================================================
// Models
// =========================================================================

/// What checking an expression reads but does not change.
pub ghost struct Ctx {
    /// The declarations (the emit types of agents are read from the state).
    pub symbols: SymbolTable,
    /// The agent whose handlers are being checked, if any.
    pub current_agent: Option<Seq<char>>,
    /// The `receives` type of the current agent.
    pub receives: Option<TypeV>,
    /// Whether errors may propagate (inside a fallible function).
    pub in_fallible: bool,
    /// Whether the current agent has an `on error` handler.
    pub agent_has_error_handler: bool,
    /// Whether we are inside `try` or `catch`.
    pub in_error_handling: bool,
    /// The tools the current agent declared with `use`.
    pub agent_tools: Set<Seq<char>>,
    /// The tools in scope.
    pub tools: Map<Seq<char>, crate::scope::ToolV>,
    /// Whether we are inside a function.
    pub in_function: bool,
    /// The declared return type of the current function.
    pub expected_return: Option<TypeV>,
    /// Whether one module of a module tree is checked, against the shared
    /// table of all modules: names then resolve through the module's
    /// imports and its own declarations.
    pub modular: bool,
    /// The module being checked (when `modular`).
    pub module: Seq<Seq<char>>,
    /// The module's imports: local name to defining module and original name.
    pub imports: Map<Seq<char>, (Seq<Seq<char>>, Seq<char>)>,
    /// The emit types recorded by the modules checked before (when `modular`).
    pub emit_types: Map<Seq<char>, TypeV>,
}

/// The import `target` names a declaration of `m` defined in its module.
pub open spec fn resolves_to<V>(
    m: Map<Seq<char>, V>,
    module_of: spec_fn(V) -> Seq<Seq<char>>,
    target: (Seq<Seq<char>>, Seq<char>),
) -> bool {
    m.contains_key(target.1) && module_of(m[target.1]) == target.0
}

/// The table key that the name `k` denotes in module `here`: an import that
/// resolves comes first, then a declaration of the module itself.
pub open spec fn visible_key<V>(
    m: Map<Seq<char>, V>,
    module_of: spec_fn(V) -> Seq<Seq<char>>,
    here: Seq<Seq<char>>,
    imports: Map<Seq<char>, (Seq<Seq<char>>, Seq<char>)>,
    k: Seq<char>,
) -> Option<Seq<char>> {
    if imports.contains_key(k) && resolves_to(m, module_of, imports[k]) {
        Some(imports[k].1)
    } else if m.contains_key(k) && module_of(m[k]) == here {
        Some(k)
    } else {
        None
    }
}

/// The declarations of `m` visible in module `here`, by local name.
pub open spec fn visible<V>(
    m: Map<Seq<char>, V>,
    module_of: spec_fn(V) -> Seq<Seq<char>>,
    here: Seq<Seq<char>>,
    imports: Map<Seq<char>, (Seq<Seq<char>>, Seq<char>)>,
) -> Map<Seq<char>, V> {
    Map::new(
        |k: Seq<char>| visible_key(m, module_of, here, imports, k) is Some,
        |k: Seq<char>| m[visible_key(m, module_of, here, imports, k)->0],
    )
}

/// The module of an agent declaration.
pub open spec fn agent_module(a: AgentInfo) -> Seq<Seq<char>> {
    names_view(a.module@)
}

/// The module of a function declaration.
pub open spec fn function_module(f: FunctionInfo) -> Seq<Seq<char>> {
    names_view(f.module@)
}

/// The module of a record declaration.
pub open spec fn record_module(r: RecordInfo) -> Seq<Seq<char>> {
    names_view(r.module@)
}

/// The module of an enum declaration.
pub open spec fn enum_module(e: EnumInfo) -> Seq<Seq<char>> {
    names_view(e.module@)
}

/// The module of a constant declaration.
pub open spec fn const_module(c: ConstInfo) -> Seq<Seq<char>> {
    names_view(c.module@)
}

impl Ctx {
    /// The table key of the agent that the name `k` denotes.
    pub open spec fn agent_key(self, k: Seq<char>) -> Option<Seq<char>> {
        if self.modular {
            visible_key(self.symbols.agents(), |a: AgentInfo| agent_module(a), self.module, self.imports, k)
        } else if self.symbols.agents().contains_key(k) {
            Some(k)
        } else {
            None
        }
    }

    /// The agents that names denote.
    pub open spec fn agents(self) -> Map<Seq<char>, AgentInfo> {
        if self.modular {
            visible(self.symbols.agents(), |a: AgentInfo| agent_module(a), self.module, self.imports)
        } else {
            self.symbols.agents()
        }
    }

    /// The functions that names denote.
    pub open spec fn functions(self) -> Map<Seq<char>, FunctionInfo> {
        if self.modular {
            visible(self.symbols.functions(), |f: FunctionInfo| function_module(f), self.module, self.imports)
        } else {
            self.symbols.functions()
        }
    }

    /// The records that names denote.
    pub open spec fn records(self) -> Map<Seq<char>, RecordInfo> {
        if self.modular {
            visible(self.symbols.records(), |r: RecordInfo| record_module(r), self.module, self.imports)
        } else {
            self.symbols.records()
        }
    }

    /// The enums that names denote.
    pub open spec fn enums(self) -> Map<Seq<char>, EnumInfo> {
        if self.modular {
            visible(self.symbols.enums(), |e: EnumInfo| enum_module(e), self.module, self.imports)
        } else {
            self.symbols.enums()
        }
    }

    /// The constants that names denote.
    pub open spec fn consts(self) -> Map<Seq<char>, ConstInfo> {
        if self.modular {
            visible(self.symbols.consts(), |c: ConstInfo| const_module(c), self.module, self.imports)
        } else {
            self.symbols.consts()
        }
    }
}

/// What checking changes.
pub ghost struct St {
    /// The errors found so far, in order.
    pub errors: Seq<ErrV>,
    /// The local scopes, innermost last.
    pub scopes: Seq<Map<Seq<char>, TypeV>>,
    /// The beliefs of the current agent read so far.
    pub used: Set<Seq<char>>,
    /// The type each agent emits, for the agents that have emitted.
    pub emits: Map<Seq<char>, TypeV>,
    /// Whether we are inside a loop.
    pub in_loop: bool,
}

/// The model of an optional type.
pub open spec fn opt_tv(t: Option<Type>) -> Option<TypeV> {
    match t {
        Some(x) => Some(x@),
        None => None,
    }
}

/// The model of an optional name.
pub open spec fn opt_name(n: Option<String>) -> Option<Seq<char>> {
    match n {
        Some(x) => Some(x@),
        None => None,
    }
}

/// The models of the errors, in order.
pub open spec fn errs_view(v: Seq<CheckError>) -> Seq<ErrV> {
    Seq::new(v.len(), |i: int| v[i]@)
}

/// The model of a scope's variables.
pub open spec fn vars_view(s: Scope) -> Map<Seq<char>, TypeV> {
    s.variables().map_values(|t: Type| t@)
}

/// The models of the scopes, innermost last.
pub open spec fn scopes_view(v: Seq<Scope>) -> Seq<Map<Seq<char>, TypeV>> {
    Seq::new(v.len(), |i: int| vars_view(v[i]))
}

// =========================================================================
// State steps
// =========================================================================

/// Record an error.
pub open spec fn push_err(s: St, e: ErrV) -> St {
    St { errors: s.errors.push(e), ..s }
}

/// Enter a new innermost scope.
pub open spec fn push_scope_v(s: St) -> St {
    St { scopes: s.scopes.push(Map::empty()), ..s }
}

/// Leave the innermost scope (nothing happens without a scope).
pub open spec fn pop_scope_v(s: St) -> St {
    if s.scopes.len() > 0 {
        St { scopes: s.scopes.drop_last(), ..s }
    } else {
        s
    }
}

/// Bind a variable in the innermost scope (nothing happens without a scope).
pub open spec fn define_v(s: St, n: Seq<char>, t: TypeV) -> St {
    if s.scopes.len() > 0 {
        St { scopes: s.scopes.update(s.scopes.len() - 1, s.scopes.last().insert(n, t)), ..s }
    } else {
        s
    }
}

/// The type of the innermost binding of `n`, if any.
pub open spec fn find_var(scopes: Seq<Map<Seq<char>, TypeV>>, n: Seq<char>) -> Option<TypeV>
    decreases scopes.len(),
{
    if scopes.len() == 0 {
        None
    } else if scopes.last().contains_key(n) {
        Some(scopes.last()[n])
    } else {
        find_var(scopes.drop_last(), n)
    }
}

/// Look up a variable: the innermost binding, else a constant, else an
/// `UndefinedVariable` error and the error type.
pub open spec fn lookup_v(c: Ctx, s: St, n: Seq<char>, span: Span) -> (St, TypeV) {
    match find_var(s.scopes, n) {
        Some(t) => (s, t),
        None => if c.consts().contains_key(n) {
            (s, c.consts()[n].ty@)
        } else {
            (push_err(s, ErrV::UndefinedVariable { name: n, span }), TypeV::Error)
        },
    }
}

// =========================================================================
// Operators
// =========================================================================

/// How an operator is written.
pub open spec fn binop_text(op: BinOp) -> Seq<char> {
    match op {
        BinOp::Add => "+"@,
        BinOp::Sub => "-"@,
        BinOp::Mul => "*"@,
        BinOp::Div => "/"@,
        BinOp::Eq => "=="@,
        BinOp::Ne => "!="@,
        BinOp::Lt => "<"@,
        BinOp::Le => "<="@,
        BinOp::Gt => ">"@,
        BinOp::Ge => ">="@,
        BinOp::And => "&&"@,
        BinOp::Or => "||"@,
        BinOp::Concat => "++"@,
    }
}

/// How an operator is written.
pub fn binop_str(op: BinOp) -> (r: &'static str)
    ensures
        r@ == binop_text(op),
{
    match op {
        BinOp::Add => "+",
        BinOp::Sub => "-",
        BinOp::Mul => "*",
        BinOp::Div => "/",
        BinOp::Eq => "==",
        BinOp::Ne => "!=",
        BinOp::Lt => "<",
        BinOp::Le => "<=",
        BinOp::Gt => ">",
        BinOp::Ge => ">=",
        BinOp::And => "&&",
        BinOp::Or => "||",
        BinOp::Concat => "++",
    }
}

/// Whether a type model is numeric.
pub open spec fn numeric(t: TypeV) -> bool {
    t is Int || t is Float
}

/// The type of `l op r` for operand types with `Inferred` unwrapped, or
/// `None` when the operator does not apply: arithmetic needs two equal
/// numeric types, `++` two strings, `==`/`!=` two equal types, ordering two
/// equal numeric types, and `&&`/`||` two booleans.
pub open spec fn binop_type(op: BinOp, l: TypeV, r: TypeV) -> Option<TypeV> {
    match op {
        BinOp::Add | BinOp::Sub | BinOp::Mul | BinOp::Div => if numeric(l) && l == r {
            Some(l)
        } else {
            None
        },
        BinOp::Concat => if l is Str && r is Str {
            Some(TypeV::Str)
        } else {
            None
        },
        BinOp::Eq | BinOp::Ne => if l == r {
            Some(TypeV::Bool)
        } else {
            None
        },
        BinOp::Lt | BinOp::Le | BinOp::Gt | BinOp::Ge => if numeric(l) && l == r {
            Some(TypeV::Bool)
        } else {
            None
        },
        BinOp::And | BinOp::Or => if l is Bool && r is Bool {
            Some(TypeV::Bool)
        } else {
            None
        },
    }
}

/// Checking a binary operator on operand types: an error operand gives the
/// error type silently; otherwise the operands' `Inferred` wrappers are
/// removed and an operator that does not apply is an `InvalidBinaryOp` error.
pub open spec fn binary_v(s: St, op: BinOp, l: TypeV, r: TypeV, span: Span) -> (St, TypeV) {
    if l is Error || r is Error {
        (s, TypeV::Error)
    } else {
        let lu = unwrap_inferred_v(l);
        let ru = unwrap_inferred_v(r);
        match binop_type(op, lu, ru) {
            Some(t) => (s, t),
            None => (
                push_err(
                    s,
                    ErrV::InvalidBinaryOp {
                        op: binop_text(op),
                        left: display(lu),
                        right: display(ru),
                        span,
                    },
                ),
                TypeV::Error,
            ),
        }
    }
}

/// Checking a unary operator on an operand type: `-` needs a numeric type,
/// `!` a boolean; an error operand gives the error type silently.
pub open spec fn unary_v(s: St, op: UnaryOp, t: TypeV, span: Span) -> (St, TypeV) {
    if t is Error {
        (s, TypeV::Error)
    } else {
        let u = unwrap_inferred_v(t);
        match op {
            UnaryOp::Neg => if numeric(u) {
                (s, u)
            } else {
                (push_err(s, ErrV::InvalidUnaryOp { op: "-"@, operand: display(u), span }), TypeV::Error)
            },
            UnaryOp::Not => if u is Bool {
                (s, TypeV::Bool)
            } else {
                (push_err(s, ErrV::InvalidUnaryOp { op: "!"@, operand: display(u), span }), TypeV::Error)
            },
        }
    }
}

// =========================================================================
// Patterns
// =========================================================================

/// The type of a literal.
pub open spec fn lit_type(l: Literal) -> TypeV {
    match l {
        Literal::Int(_) => TypeV::Int,
        Literal::Float(_) => TypeV::Float,
        Literal::Bool(_) => TypeV::Bool,
        Literal::String(_) => TypeV::Str,
    }
}

/// The enum name a type names, if it is a named type.
pub open spec fn named_of(t: TypeV) -> Option<Seq<char>> {
    match t {
        TypeV::Named(n) => Some(n),
        _ => None,
    }
}

/// The variants of the enum `n` (empty if there is none).
pub open spec fn enum_variants(c: Ctx, n: Seq<char>) -> Seq<(String, Option<Type>)> {
    c.enums()[n].variants@
}

/// Whether the enum `n` is declared and has a variant `v`.
pub open spec fn has_variant_v(c: Ctx, n: Seq<char>, v: Seq<char>) -> bool {
    c.enums().contains_key(n) && variant_index(enum_variants(c, n), v) >= 0
}

/// The name checks of a variant pattern against a non-error scrutinee type:
/// a qualified name must be the scrutinee's enum and a declared enum with
/// that variant; an unqualified variant must belong to the scrutinee's enum,
/// which must be a named type. The flag says that checking stops here.
pub open spec fn variant_names_v(
    c: Ctx,
    s: St,
    enum_name: Option<Ident>,
    variant: Seq<char>,
    span: Span,
    t: TypeV,
) -> (St, bool) {
    let expected = named_of(t);
    match enum_name {
        Some(e) => if expected is Some && e.name@ != expected.unwrap() {
            (push_err(s, ErrV::TypeMismatch { expected: expected.unwrap(), found: e.name@, span }), true)
        } else if c.enums().contains_key(e.name@) {
            if variant_index(enum_variants(c, e.name@), variant) < 0 {
                (push_err(s, ErrV::UndefinedEnumVariant { variant, enum_name: e.name@, span }), false)
            } else {
                (s, false)
            }
        } else {
            (push_err(s, ErrV::UndefinedType { name: e.name@, span }), false)
        },
        None => match expected {
            Some(n) => if c.enums().contains_key(n) && variant_index(enum_variants(c, n), variant) < 0 {
                (push_err(s, ErrV::UndefinedEnumVariant { variant, enum_name: n, span }), false)
            } else {
                (s, false)
            },
            None => (push_err(s, ErrV::TypeMismatch { expected: "enum type"@, found: display(t), span }), false),
        },
    }
}

/// Checking a pattern against the scrutinee's type: bindings go to the
/// innermost scope; mismatches are errors; an error type matches silently.
pub open spec fn pattern_v(c: Ctx, s: St, p: Pattern, t: TypeV) -> St
    decreases p, 1int,
{
    match p {
        Pattern::Wildcard { .. } => s,
        Pattern::Binding { name, .. } => define_v(s, name.name@, t),
        Pattern::Variant { .. } => variant_pattern_v(c, s, p, t),
        Pattern::Literal { value, span } => if !compatible(lit_type(value), t) && !(t is Error) {
            push_err(s, ErrV::TypeMismatch { expected: display(t), found: display(lit_type(value)), span })
        } else {
            s
        },
        Pattern::Tuple { elements, span } => match t {
            TypeV::Tuple(ts) => if elements@.len() != ts.len() {
                push_err(s, ErrV::TupleArityMismatch { expected: elements@.len(), found: ts.len(), span })
            } else {
                patterns_v(c, s, elements@, ts)
            },
            TypeV::Error => s,
            _ => push_err(s, ErrV::TypeMismatch { expected: "tuple"@, found: display(t), span }),
        },
    }
}

/// Checking a variant pattern: the name checks, then the payload pattern
/// against the variant's payload type.
pub open spec fn variant_pattern_v(c: Ctx, s: St, p: Pattern, t: TypeV) -> St
    decreases p, 0int,
{
    match p {
        Pattern::Variant { enum_name, variant, payload, span } => if t is Error {
            s
        } else {
            let (s1, stop) = variant_names_v(c, s, enum_name, variant.name@, span, t);
            if stop {
                s1
            } else {
                let lookup = match enum_name {
                    Some(e) => Some(e.name@),
                    None => named_of(t),
                };
                match lookup {
                    Some(ln) => if has_variant_v(c, ln, variant.name@) {
                        let ep = enum_variants(c, ln)[variant_index(enum_variants(c, ln), variant.name@)].1;
                        match payload {
                            Some(inner) => match ep {
                                Some(pt) => pattern_v(c, s1, *inner, pt@),
                                None => push_err(
                                    s1,
                                    ErrV::TypeMismatch {
                                        expected: variant.name@,
                                        found: variant.name@ + "(...)"@,
                                        span,
                                    },
                                ),
                            },
                            None => s1,
                        }
                    } else {
                        s1
                    },
                    None => s1,
                }
            }
        },
        _ => s,
    }
}

/// Checking patterns against types, left to right.
pub open spec fn patterns_v(c: Ctx, s: St, ps: Seq<Pattern>, ts: Seq<TypeV>) -> St
    decreases ps,
{
    if ps.len() == 0 {
        s
    } else {
        pattern_v(c, patterns_v(c, s, ps.drop_last(), ts), ps.last(), ts[ps.len() - 1])
    }
}

// =========================================================================
// Syntax helpers
// =========================================================================

/// The name after a `self.` prefix, if the name has one.
pub fn strip_self(name: &str) -> (r: Option<&str>)
    ensures
        match self_suffix(name@) {
            Some(f) => r is Some && r.unwrap()@ == f,
            None => r is None,
        },
{
    proof {
        reveal_strlit("self.");
    }
    let n = name.unicode_len();
    if n >= 5 && name.get_char(0) == 's' && name.get_char(1) == 'e' && name.get_char(2) == 'l'
        && name.get_char(3) == 'f' && name.get_char(4) == '.' {
        assert(name@.subrange(0, 5) =~= "self."@);
        Some(name.substring_char(5, n))
    } else {
        proof {
            if n >= 5 {
                assert(name@.subrange(0, 5) != "self."@) by {
                    if name@.subrange(0, 5) == "self."@ {
                        assert(name@[0] == name@.subrange(0, 5)[0]);
                        assert(name@[1] == name@.subrange(0, 5)[1]);
                        assert(name@[2] == name@.subrange(0, 5)[2]);
                        assert(name@[3] == name@.subrange(0, 5)[3]);
                        assert(name@[4] == name@.subrange(0, 5)[4]);
                    }
                }
            }
        }
        None
    }
}

/// Whether some initializer has the name `n`.
fn provides_name(fields: &Vec<FieldInit>, n: &str) -> (r: bool)
    ensures
        r == provides(fields@, n@),
{
    let len = fields.len();
    for i in 0..len
        invariant
            len == fields@.len(),
            forall|k: int| 0 <= k < i ==> fields@[k].name.name@ != n@,
    {
        if crate::text::str_eq(fields[i].name.name.as_str(), n) {
            assert(fields@[i as int].name.name@ == n@);
            return true;
        }
    }
    false
}

/// The names of a list of entries, in order.
fn entry_names<V>(entries: &[(String, V)]) -> (r: Vec<String>)
    ensures
        r@.len() == entries@.len(),
        forall|k: int| 0 <= k < entries@.len() ==> #[trigger] r@[k]@ == entries@[k].0@,
{
    let mut r: Vec<String> = Vec::new();
    let n = entries.len();
    for i in 0..n
        invariant
            n == entries@.len(),
            r@.len() == i,
            forall|k: int| 0 <= k < i ==> #[trigger] r@[k]@ == entries@[k].0@,
    {
        r.push(entries[i].0.clone());
    }
    r
}

/// Whether some arm's pattern is a wildcard or a binding.
fn has_wildcard_arm(arms: &Vec<MatchArm>) -> (r: bool)
    ensures
        r == arms_have_wildcard(arms@),
{
    let n = arms.len();
    for i in 0..n
        invariant
            n == arms@.len(),
            forall|k: int| 0 <= k < i ==> !(arms@[k].pattern is Wildcard || arms@[k].pattern is Binding),
    {
        if matches!(arms[i].pattern, Pattern::Wildcard { .. } | Pattern::Binding { .. }) {
            assert(arms@[i as int].pattern is Wildcard || arms@[i as int].pattern is Binding);
            return true;
        }
    }
    false
}

/// Whether some arm's pattern names the variant `v`.
fn covers_variant(arms: &Vec<MatchArm>, v: &str) -> (r: bool)
    ensures
        r == arms_cover_variant(arms@, v@),
{
    let n = arms.len();
    for i in 0..n
        invariant
            n == arms@.len(),
            forall|k: int| 0 <= k < i ==> pattern_variant(#[trigger] arms@[k].pattern) != Some(v@),
    {
        if let Pattern::Variant { variant, .. } = &arms[i].pattern {
            if crate::text::str_eq(variant.name.as_str(), v) {
                assert(pattern_variant(arms@[i as int].pattern) == Some(v@));
                return true;
            }
        }
    }
    false
}

/// Whether some arm's pattern is the boolean literal `b`.
fn covers_bool(arms: &Vec<MatchArm>, b: bool) -> (r: bool)
    ensures
        r == arms_cover_bool(arms@, b),
{
    let n = arms.len();
    for i in 0..n
        invariant
            n == arms@.len(),
            forall|k: int| 0 <= k < i ==> pattern_bool(#[trigger] arms@[k].pattern) != Some(b),
    {
        if let Pattern::Literal { value: Literal::Bool(x), .. } = &arms[i].pattern {
            if *x == b {
                assert(pattern_bool(arms@[i as int].pattern) == Some(b));
                return true;
            }
        }
    }
    false
}

/// Copies the types of named parameters.
fn copy_param_types(ps: &Vec<(String, Type)>) -> (r: Vec<Type>)
    ensures
        r@.len() == ps@.len(),
        types_of(r@) == param_types(ps@),
{
    let mut r: Vec<Type> = Vec::new();
    let n = ps.len();
    for i in 0..n
        invariant
            n == ps@.len(),
            r@.len() == i,
            forall|k: int| 0 <= k < i ==> #[trigger] r@[k]@ == ps@[k].1@,
    {
        r.push(ps[i].1.deep_copy());
    }
    assert(types_of(r@) =~= param_types(ps@));
    r
}

/// Copies a list of types.
fn copy_type_list(ps: &Vec<Type>) -> (r: Vec<Type>)
    ensures
        r@.len() == ps@.len(),
        types_of(r@) == types_of(ps@),
{
    let mut r: Vec<Type> = Vec::new();
    let n = ps.len();
    for i in 0..n
        invariant
            n == ps@.len(),
            r@.len() == i,
            forall|k: int| 0 <= k < i ==> #[trigger] r@[k]@ == ps@[k]@,
    {
        r.push(ps[i].deep_copy());
    }
    assert(types_of(r@) =~= types_of(ps@));
    r
}

/// The digit of a number below ten.
pub(crate) fn digit_str(d: usize) -> (r: &'static str)
    requires
        d < 10,
    ensures
        r@ == seq![digit_char(d as nat)],
{
    if d == 0 {
        proof { reveal_strlit("0"); }
        "0"
    } else if d == 1 {
        proof { reveal_strlit("1"); }
        "1"
    } else if d == 2 {
        proof { reveal_strlit("2"); }
        "2"
    } else if d == 3 {
        proof { reveal_strlit("3"); }
        "3"
    } else if d == 4 {
        proof { reveal_strlit("4"); }
        "4"
    } else if d == 5 {
        proof { reveal_strlit("5"); }
        "5"
    } else if d == 6 {
        proof { reveal_strlit("6"); }
        "6"
    } else if d == 7 {
        proof { reveal_strlit("7"); }
        "7"
    } else if d == 8 {
        proof { reveal_strlit("8"); }
        "8"
    } else {
        proof { reveal_strlit("9"); }
        "9"
    }
}

/// The decimal digits of a number.
pub fn decimal_string(n: usize) -> (r: String)
    ensures
        r@ == decimal(n as nat),
    decreases n,
{
    if n < 10 {
        String::from_str(digit_str(n))
    } else {
        let mut r = decimal_string(n / 10);
        r.append(digit_str(n % 10));
        r
    }
}

/// Whether an expression is a constant expression (evaluable at compile
/// time): a literal, or a unary operator or parentheses around one.
pub fn is_const_expr(expr: &Expr) -> (r: bool)
    ensures
        r == is_const(*expr),
    decreases expr,
{
    match expr {
        Expr::Literal { .. } => true,
        Expr::Unary { operand, .. } => is_const_expr(operand),
        Expr::Paren { inner, .. } => is_const_expr(inner),
        _ => false,
    }
}

/// Whether some handler reacts to errors.
fn any_error_handler(hs: &Vec<HandlerDecl>) -> (r: bool)
    ensures
        r == has_error_handler(hs@),
{
    let n = hs.len();
    for i in 0..n
        invariant
            n == hs@.len(),
            forall|k: int| 0 <= k < i ==> (#[trigger] hs@[k]).event !is Error,
    {
        if matches!(hs[i].event, EventKind::Error { .. }) {
            assert(hs@[i as int].event is Error);
            return true;
        }
    }
    false
}

/// Copies a list of names.
pub(crate) fn copy_strings(v: &Vec<String>) -> (r: Vec<String>)
    ensures
        r@ == v@,
{
    let mut r: Vec<String> = Vec::new();
    let n = v.len();
    for i in 0..n
        invariant
            n == v@.len(),
            r@ == v@.subrange(0, i as int),
    {
        r.push(v[i].clone());
        assert(r@ =~= v@.subrange(0, i + 1));
    }
    assert(v@.subrange(0, n as int) =~= v@);
    r
}

/// The parameter type of the first message handler, if any.
fn message_type_of(hs: &Vec<HandlerDecl>) -> (r: Option<Type>)
    ensures
        opt_tv(r) == first_message_type(hs@),
{
    let mut found: Option<Type> = None;
    let n = hs.len();
    assert(hs@.subrange(0, 0) =~= Seq::<HandlerDecl>::empty());
    for i in 0..n
        invariant
            n == hs@.len(),
            opt_tv(found) == first_message_type(hs@.subrange(0, i as int)),
    {
        assert(hs@.subrange(0, i + 1).drop_last() =~= hs@.subrange(0, i as int));
        if found.is_none() {
            if let EventKind::Message { param_ty, .. } = &hs[i].event {
                found = Some(resolve_type(param_ty));
            }
        }
    }
    assert(hs@.subrange(0, n as int) =~= hs@);
    found
}

/// Whether some handler reacts to the start event.
fn any_start_handler(hs: &Vec<HandlerDecl>) -> (r: bool)
    ensures
        r == has_start(hs@),
{
    let n = hs.len();
    for i in 0..n
        invariant
            n == hs@.len(),
            forall|k: int| 0 <= k < i ==> (#[trigger] hs@[k]).event !is Start,
    {
        if matches!(hs[i].event, EventKind::Start) {
            assert(hs@[i as int].event is Start);
            return true;
        }
    }
    false
}

/// Which rule checks a call of the built-in `n`.
fn builtin_kind_of(n: &str) -> (k: u8)
    ensures
        k == builtin_kind(n@),
{
    if crate::text::str_eq(n, "len") {
        0
    } else if crate::text::str_eq(n, "push") {
        1
    } else if crate::text::str_eq(n, "str") {
        2
    } else if crate::text::str_eq(n, "map_get") || crate::text::str_eq(n, "map_delete")
        || crate::text::str_eq(n, "map_has") {
        3
    } else if crate::text::str_eq(n, "map_set") {
        4
    } else if crate::text::str_eq(n, "map_keys") || crate::text::str_eq(n, "map_values") {
        5
    } else {
        6
    }
}

/// The model of a tuple type is the tuple of its elements' models.
proof fn lemma_types_of(s: Seq<Type>)
    ensures
        view_types(s) == types_of(s),
{
    lemma_view_types(s);
    assert(view_types(s) =~= types_of(s));
}

// =========================================================================
// Whole programs
// =========================================================================

/// The context in which a program's bodies are checked, given its table.
pub open spec fn program_ctx(t: SymbolTable) -> Ctx {
    Ctx {
        symbols: t,
        current_agent: None,
        receives: None,
        in_fallible: false,
        agent_has_error_handler: false,
        in_error_handling: false,
        agent_tools: Set::empty(),
        tools: spec_builtin_tools(),
        in_function: false,
        expected_return: None,
        modular: false,
        module: Seq::empty(),
        imports: Map::empty(),
        emit_types: Map::empty(),
    }
}

/// The context in which one module of a tree is checked: the shared table,
/// the module's path and imports, and the emit types recorded so far.
pub open spec fn tree_module_ctx(
    t: SymbolTable,
    module: Seq<Seq<char>>,
    imports: Map<Seq<char>, (Seq<Seq<char>>, Seq<char>)>,
    emits: Map<Seq<char>, TypeV>,
) -> Ctx {
    Ctx { modular: true, module, imports, emit_types: emits, ..program_ctx(t) }
}

/// The state in which checking starts: no errors, one empty scope.
pub open spec fn initial_st() -> St {
    St {
        errors: Seq::empty(),
        scopes: seq![Map::empty()],
        used: Set::empty(),
        emits: Map::empty(),
        in_loop: false,
    }
}

/// The state after checking a program whose declarations are in `t`:
/// first the duplicate definitions, then the errors of the bodies.
pub open spec fn program_st(t: SymbolTable, p: Program) -> St {
    bodies_v(program_ctx(t), St { errors: collect_errors(p), ..initial_st() }, p)
}

/// Two agent declarations agree on everything but the emit type.
pub open spec fn agent_decl_same(a: AgentInfo, b: AgentInfo) -> bool {
    &&& a.name == b.name
    &&& a.beliefs == b.beliefs
    &&& a.message_type == b.message_type
    &&& a.has_start_handler == b.has_start_handler
    &&& a.is_pub == b.is_pub
    &&& a.module == b.module
}

/// `r` is the table `t` with each agent's emit type set from `emits`.
pub open spec fn with_emits(t: SymbolTable, r: SymbolTable, emits: Map<Seq<char>, TypeV>) -> bool {
    &&& r.wf()
    &&& r.agents().dom() == t.agents().dom()
    &&& forall|k: Seq<char>| #[trigger] r.agents().contains_key(k) ==> agent_decl_same(r.agents()[k], t.agents()[k])
        && opt_tv(r.agents()[k].emit_type) == (if emits.contains_key(k) { Some(emits[k]) } else { None })
    &&& r.supervisors() == t.supervisors()
    &&& r.protocols() == t.protocols()
    &&& r.effect_handlers() == t.effect_handlers()
    &&& r.functions() == t.functions()
    &&& r.builtins() == t.builtins()
    &&& r.records() == t.records()
    &&& r.enums() == t.enums()
    &&& r.consts() == t.consts()
}

/// The result of checking a program in a module: the declarations collected
/// into `result.symbols` (with the agents' emit types), and the errors.
pub open spec fn checks_to(p: Program, module: Seq<String>, result: CheckResult) -> bool {
    exists|t: SymbolTable|
        #![trigger collected(t, p, module)]
        collected(t, p, module) && errs_view(result.errors@) == program_st(t, p).errors && with_emits(
            t,
            result.symbols,
            program_st(t, p).emits,
        )
}

/// Whether two module paths name the same module.
pub fn same_path(a: &Vec<String>, b: &Vec<String>) -> (r: bool)
    ensures
        r == (names_view(a@) == names_view(b@)),
{
    if a.len() != b.len() {
        proof {
            if names_view(a@) == names_view(b@) {
                assert(names_view(a@).len() == names_view(b@).len());
            }
        }
        return false;
    }
    let n = a.len();
    for i in 0..n
        invariant
            n == a@.len(),
            n == b@.len(),
            forall|j: int| 0 <= j < i ==> a@[j]@ == b@[j]@,
    {
        if !crate::text::str_eq(a[i].as_str(), b[i].as_str()) {
            proof {
                assert(names_view(a@)[i as int] != names_view(b@)[i as int]);
            }
            return false;
        }
    }
    assert(names_view(a@) =~= names_view(b@));
    true
}

/// Result of type checking a program.
pub struct CheckResult {
    /// The symbol table with all resolved declarations.
    pub symbols: SymbolTable,
    /// Any errors encountered during checking.
    pub errors: Vec<CheckError>,
}

// =========================================================================
// The checker
// =========================================================================

/// The type checker's state.
pub struct Checker {
    symbols: SymbolTable,
    scopes: Vec<Scope>,
    errors: Vec<CheckError>,
    current_agent: Option<String>,
    in_function: bool,
    expected_return: Option<Type>,
    used_beliefs: NameSet,
    current_module: Vec<String>,
    in_loop: bool,
    receives_type: Option<Type>,
    in_fallible_context: bool,
    agent_has_error_handler: bool,
    in_error_handling: bool,
    current_agent_tools: NameSet,
    scope: Scope,
    emitted: NameMap<Type>,
    modular: bool,
    imports: NameMap<(Vec<String>, String)>,
    frozen_emits: NameMap<Type>,
}

/// The model of a module's imports.
pub open spec fn imports_view(m: Map<Seq<char>, (Vec<String>, String)>) -> Map<Seq<char>, (Seq<Seq<char>>, Seq<char>)> {
    m.map_values(|p: (Vec<String>, String)| (names_view(p.0@), p.1@))
}

impl Checker {
    /// The checker's tables are well formed.
    pub closed spec fn inv(&self) -> bool {
        &&& self.symbols.wf()
        &&& forall|i: int| 0 <= i < self.scopes@.len() ==> (#[trigger] self.scopes@[i]).wf()
        &&& self.used_beliefs.wf()
        &&& self.current_agent_tools.wf()
        &&& self.scope.wf()
        &&& self.emitted.wf()
        &&& self.imports.wf()
        &&& self.frozen_emits.wf()
    }

    /// What checking an expression reads.
    pub closed spec fn ctx(&self) -> Ctx {
        Ctx {
            symbols: self.symbols,
            current_agent: opt_name(self.current_agent),
            receives: opt_tv(self.receives_type),
            in_fallible: self.in_fallible_context,
            agent_has_error_handler: self.agent_has_error_handler,
            in_error_handling: self.in_error_handling,
            agent_tools: self.current_agent_tools@,
            tools: self.scope.tools_view(),
            in_function: self.in_function,
            expected_return: opt_tv(self.expected_return),
            modular: self.modular,
            module: if self.modular {
                names_view(self.current_module@)
            } else {
                Seq::empty()
            },
            imports: imports_view(self.imports@),
            emit_types: self.frozen_emits@.map_values(|t: Type| t@),
        }
    }

    /// What checking changes.
    pub closed spec fn st(&self) -> St {
        St {
            errors: errs_view(self.errors@),
            scopes: scopes_view(self.scopes@),
            used: self.used_beliefs@,
            emits: self.emitted@.map_values(|t: Type| t@),
            in_loop: self.in_loop,
        }
    }

    /// The module being checked.
    pub closed spec fn module(&self) -> Seq<String> {
        self.current_module@
    }

    /// The checker is well formed and holds the context and module of `before`.
    pub open spec fn frame(&self, before: Checker) -> bool {
        &&& self.inv()
        &&& self.ctx() == before.ctx()
        &&& self.module() == before.module()
    }

    /// Record an error.
    fn error(&mut self, e: CheckError)
        requires
            old(self).inv(),
        ensures
            final(self).inv(),
            final(self).ctx() == old(self).ctx(),
            final(self).st() == push_err(old(self).st(), e@),
            final(self).module() == old(self).module(),
    {
        let ghost s0 = self.st();
        self.errors.push(e);
        assert(errs_view(self.errors@) =~= s0.errors.push(e@));
    }

    /// Enter a new innermost scope.
    fn push_scope(&mut self)
        requires
            old(self).inv(),
        ensures
            final(self).inv(),
            final(self).ctx() == old(self).ctx(),
            final(self).st() == push_scope_v(old(self).st()),
            final(self).module() == old(self).module(),
    {
        let ghost s0 = self.st();
        let sc = Scope::new();
        assert(vars_view(sc) =~= Map::<Seq<char>, TypeV>::empty());
        self.scopes.push(sc);
        assert(scopes_view(self.scopes@) =~= s0.scopes.push(Map::empty()));
    }

    /// Leave the innermost scope.
    fn pop_scope(&mut self)
        requires
            old(self).inv(),
        ensures
            final(self).inv(),
            final(self).ctx() == old(self).ctx(),
            final(self).st() == pop_scope_v(old(self).st()),
            final(self).module() == old(self).module(),
    {
        let ghost s0 = self.st();
        if self.scopes.len() > 0 {
            let _ = self.scopes.pop();
            assert(scopes_view(self.scopes@) =~= s0.scopes.drop_last());
        }
    }

    /// Bind a variable in the innermost scope.
    fn define_var(&mut self, name: &str, ty: Type)
        requires
            old(self).inv(),
        ensures
            final(self).inv(),
            final(self).ctx() == old(self).ctx(),
            final(self).st() == define_v(old(self).st(), name@, ty@),
            final(self).module() == old(self).module(),
    {
        let ghost s0 = self.st();
        let n = self.scopes.len();
        if n > 0 {
            let ghost tv = ty@;
            let ghost old_scope = self.scopes@[n - 1];
            self.scopes[n - 1].define(String::from_str(name), ty);
            assert(vars_view(self.scopes@[n - 1 as int]) =~= vars_view(old_scope).insert(name@, tv));
            assert(scopes_view(self.scopes@) =~= s0.scopes.update(
                n - 1,
                s0.scopes.last().insert(name@, tv),
            ));
        }
    }

    /// The type of the innermost binding of `name` in the scopes, if any.
    fn find_var(&self, name: &str) -> (r: Option<Type>)
        requires
            self.inv(),
        ensures
            opt_tv(r) == find_var(self.st().scopes, name@),
    {
        let ghost sv = self.st().scopes;
        let mut i = self.scopes.len();
        assert(sv.subrange(0, i as int) =~= sv);
        while i > 0
            invariant
                self.inv(),
                i <= self.scopes@.len(),
                sv == self.st().scopes,
                find_var(sv, name@) == find_var(sv.subrange(0, i as int), name@),
            decreases i,
        {
            let ghost pre = sv.subrange(0, i as int);
            assert(pre.drop_last() =~= sv.subrange(0, i - 1));
            match self.scopes[i - 1].get(name) {
                Some(t) => {
                    return Some(t.deep_copy());
                },
                None => {},
            }
            i = i - 1;
        }
        None
    }

    /// The agent that a name denotes.
    fn lookup_agent(&self, name: &str) -> (r: Option<&AgentInfo>)
        requires
            self.inv(),
        ensures
            r is Some <==> self.ctx().agents().contains_key(name@),
            r matches Some(i) ==> *i == self.ctx().agents()[name@] && i.wf(),
    {
        if self.modular {
            if let Some(target) = self.imports.get(name) {
                if let Some(info) = self.symbols.get_agent(target.1.as_str()) {
                    if same_path(&info.module, &target.0) {
                        return Some(info);
                    }
                }
            }
            match self.symbols.get_agent(name) {
                Some(info) => if same_path(&info.module, &self.current_module) {
                    Some(info)
                } else {
                    None
                },
                None => None,
            }
        } else {
            self.symbols.get_agent(name)
        }
    }

    /// The type the agent that a name denotes was recorded to emit by the
    /// modules checked before (in a module of a tree).
    fn frozen_emit(&self, name: &str) -> (r: Option<Type>)
        requires
            self.inv(),
            self.modular,
        ensures
            r is Some <==> (self.ctx().agent_key(name@) matches Some(k) && self.ctx().emit_types.contains_key(k)),
            r matches Some(t) ==> t@ == self.ctx().emit_types[self.ctx().agent_key(name@)->0],
    {
        let mut key: Option<&str> = None;
        if let Some(target) = self.imports.get(name) {
            if let Some(info) = self.symbols.get_agent(target.1.as_str()) {
                if same_path(&info.module, &target.0) {
                    key = Some(target.1.as_str());
                }
            }
        }
        if key.is_none() {
            if let Some(info) = self.symbols.get_agent(name) {
                if same_path(&info.module, &self.current_module) {
                    key = Some(name);
                }
            }
        }
        match key {
            Some(k) => match self.frozen_emits.get(k) {
                Some(t) => Some(t.deep_copy()),
                None => None,
            },
            None => None,
        }
    }

    /// The function that a name denotes.
    fn lookup_function(&self, name: &str) -> (r: Option<&FunctionInfo>)
        requires
            self.inv(),
        ensures
            r is Some <==> self.ctx().functions().contains_key(name@),
            r matches Some(i) ==> *i == self.ctx().functions()[name@],
    {
        if self.modular {
            if let Some(target) = self.imports.get(name) {
                if let Some(info) = self.symbols.get_function(target.1.as_str()) {
                    if same_path(&info.module, &target.0) {
                        return Some(info);
                    }
                }
            }
            match self.symbols.get_function(name) {
                Some(info) => if same_path(&info.module, &self.current_module) {
                    Some(info)
                } else {
                    None
                },
                None => None,
            }
        } else {
            self.symbols.get_function(name)
        }
    }

    /// The record that a name denotes.
    fn lookup_record(&self, name: &str) -> (r: Option<&RecordInfo>)
        requires
            self.inv(),
        ensures
            r is Some <==> self.ctx().records().contains_key(name@),
            r matches Some(i) ==> *i == self.ctx().records()[name@] && i.wf(),
    {
        if self.modular {
            if let Some(target) = self.imports.get(name) {
                if let Some(info) = self.symbols.get_record(target.1.as_str()) {
                    if same_path(&info.module, &target.0) {
                        return Some(info);
                    }
                }
            }
            match self.symbols.get_record(name) {
                Some(info) => if same_path(&info.module, &self.current_module) {
                    Some(info)
                } else {
                    None
                },
                None => None,
            }
        } else {
            self.symbols.get_record(name)
        }
    }

    /// The enum that a name denotes.
    fn lookup_enum(&self, name: &str) -> (r: Option<&EnumInfo>)
        requires
            self.inv(),
        ensures
            r is Some <==> self.ctx().enums().contains_key(name@),
            r matches Some(i) ==> *i == self.ctx().enums()[name@],
    {
        if self.modular {
            if let Some(target) = self.imports.get(name) {
                if let Some(info) = self.symbols.get_enum(target.1.as_str()) {
                    if same_path(&info.module, &target.0) {
                        return Some(info);
                    }
                }
            }
            match self.symbols.get_enum(name) {
                Some(info) => if same_path(&info.module, &self.current_module) {
                    Some(info)
                } else {
                    None
                },
                None => None,
            }
        } else {
            self.symbols.get_enum(name)
        }
    }

    /// The constant that a name denotes.
    fn lookup_const(&self, name: &str) -> (r: Option<&ConstInfo>)
        requires
            self.inv(),
        ensures
            r is Some <==> self.ctx().consts().contains_key(name@),
            r matches Some(i) ==> *i == self.ctx().consts()[name@],
    {
        if self.modular {
            if let Some(target) = self.imports.get(name) {
                if let Some(info) = self.symbols.get_const(target.1.as_str()) {
                    if same_path(&info.module, &target.0) {
                        return Some(info);
                    }
                }
            }
            match self.symbols.get_const(name) {
                Some(info) => if same_path(&info.module, &self.current_module) {
                    Some(info)
                } else {
                    None
                },
                None => None,
            }
        } else {
            self.symbols.get_const(name)
        }
    }

    /// Look up a variable: innermost binding first, then the constants.
    fn lookup_var(&mut self, name: &str, span: &Span) -> (r: Type)
        requires
            old(self).inv(),
        ensures
            final(self).inv(),
            final(self).ctx() == old(self).ctx(),
            (final(self).st(), r@) == lookup_v(old(self).ctx(), old(self).st(), name@, *span),
            final(self).module() == old(self).module(),
    {
        match self.find_var(name) {
            Some(t) => t,
            None => {
                match self.lookup_const(name) {
                    Some(info) => info.ty.deep_copy(),
                    None => {
                        self.error(CheckError::undefined_variable(name, span));
                        Type::Error
                    },
                }
            },
        }
    }

    /// Check a binary operator applied to operands of the given types.
    fn check_binary_op(&mut self, op: BinOp, left: &Type, right: &Type, span: &Span) -> (r: Type)
        requires
            old(self).inv(),
        ensures
            final(self).inv(),
            final(self).ctx() == old(self).ctx(),
            (final(self).st(), r@) == binary_v(old(self).st(), op, left@, right@, *span),
            final(self).module() == old(self).module(),
    {
        if left.is_error() || right.is_error() {
            return Type::Error;
        }
        let left = left.unwrap_inferred();
        let right = right.unwrap_inferred();
        let ok = match op {
            BinOp::Add | BinOp::Sub | BinOp::Mul | BinOp::Div => left.is_numeric() && left.same_as(right),
            BinOp::Concat => matches!(left, Type::String) && matches!(right, Type::String),
            BinOp::Eq | BinOp::Ne => left.same_as(right),
            BinOp::Lt | BinOp::Le | BinOp::Gt | BinOp::Ge => left.is_numeric() && left.same_as(right),
            BinOp::And | BinOp::Or => matches!(left, Type::Bool) && matches!(right, Type::Bool),
        };
        if ok {
            match op {
                BinOp::Add | BinOp::Sub | BinOp::Mul | BinOp::Div => left.deep_copy(),
                BinOp::Concat => Type::String,
                _ => Type::Bool,
            }
        } else {
            let l = left.to_display_string();
            let r = right.to_display_string();
            self.error(CheckError::invalid_binary_op(binop_str(op), l.as_str(), r.as_str(), span));
            Type::Error
        }
    }

    /// Check a unary operator applied to an operand of the given type.
    fn check_unary_op(&mut self, op: UnaryOp, operand: &Type, span: &Span) -> (r: Type)
        requires
            old(self).inv(),
        ensures
            final(self).inv(),
            final(self).ctx() == old(self).ctx(),
            (final(self).st(), r@) == unary_v(old(self).st(), op, operand@, *span),
            final(self).module() == old(self).module(),
    {
        if operand.is_error() {
            return Type::Error;
        }
        let operand = operand.unwrap_inferred();
        match op {
            UnaryOp::Neg => {
                if operand.is_numeric() {
                    operand.deep_copy()
                } else {
                    let d = operand.to_display_string();
                    self.error(CheckError::invalid_unary_op("-", d.as_str(), span));
                    Type::Error
                }
            },
            UnaryOp::Not => {
                if matches!(operand, Type::Bool) {
                    Type::Bool
                } else {
                    let d = operand.to_display_string();
                    self.error(CheckError::invalid_unary_op("!", d.as_str(), span));
                    Type::Error
                }
            },
        }
    }

    /// Check a pattern against the scrutinee's type, binding its variables
    /// in the innermost scope.
    #[verifier::loop_isolation(false)]
    fn check_pattern(&mut self, pattern: &Pattern, scrutinee_ty: &Type)
        requires
            old(self).inv(),
        ensures
            final(self).inv(),
            final(self).ctx() == old(self).ctx(),
            final(self).st() == pattern_v(old(self).ctx(), old(self).st(), *pattern, scrutinee_ty@),
            final(self).module() == old(self).module(),
        decreases pattern, 1int,
    {
        match pattern {
            Pattern::Wildcard { .. } => {},
            Pattern::Binding { name, .. } => {
                self.define_var(name.name.as_str(), scrutinee_ty.deep_copy());
            },
            Pattern::Variant { .. } => {
                self.check_variant_pattern(pattern, scrutinee_ty);
            },
            Pattern::Literal { value, span } => {
                let lit_ty = match value {
                    Literal::Int(_) => Type::Int,
                    Literal::Float(_) => Type::Float,
                    Literal::Bool(_) => Type::Bool,
                    Literal::String(_) => Type::String,
                };
                if !lit_ty.is_compatible_with(scrutinee_ty) && !scrutinee_ty.is_error() {
                    let e = scrutinee_ty.to_display_string();
                    let f = lit_ty.to_display_string();
                    self.error(CheckError::type_mismatch(e.as_str(), f.as_str(), span));
                }
            },
            Pattern::Tuple { elements, span } => {
                match scrutinee_ty {
                    Type::Tuple(elem_types) => {
                        proof {
                            lemma_view_types(elem_types@);
                        }
                        if elements.len() != elem_types.len() {
                            self.error(CheckError::tuple_arity_mismatch(elements.len(), elem_types.len(), span));
                        } else {
                            let ghost c0 = self.ctx();
                            let ghost s0 = self.st();
                            let ghost ts = view_types(elem_types@);
                            let n = elements.len();
                            assert(elements@.subrange(0, 0) =~= Seq::<Pattern>::empty());
                            for i in 0..n
                                invariant
                                    self.inv(),
                                    n == elements@.len(),
                                    n == elem_types@.len(),
                                    ts.len() == n,
                                    forall|k: int| 0 <= k < n ==> #[trigger] ts[k] == elem_types@[k]@,
                                    self.ctx() == c0,
                                    self.module() == old(self).module(),
                                    self.st() == patterns_v(c0, s0, elements@.subrange(0, i as int), ts),
                            {
                                assert(elements@.subrange(0, i + 1).drop_last() =~= elements@.subrange(0, i as int));
                                assert(decreases_to!(pattern => elements@[i as int]));
                                self.check_pattern(&elements[i], &elem_types[i]);
                            }
                            assert(elements@.subrange(0, n as int) =~= elements@);
                        }
                    },
                    Type::Error => {},
                    _ => {
                        let f = scrutinee_ty.to_display_string();
                        self.error(CheckError::type_mismatch("tuple", f.as_str(), span));
                    },
                }
            },
        }
    }

    /// Check a variant pattern: its names, then its payload.
    fn check_variant_pattern(&mut self, pattern: &Pattern, scrutinee_ty: &Type)
        requires
            old(self).inv(),
            pattern is Variant,
        ensures
            final(self).inv(),
            final(self).ctx() == old(self).ctx(),
            final(self).st() == variant_pattern_v(old(self).ctx(), old(self).st(), *pattern, scrutinee_ty@),
            final(self).module() == old(self).module(),
        decreases pattern, 0int,
    {
        let Pattern::Variant { enum_name, variant, payload, span } = pattern else {
            return;
        };
        let expected_enum: Option<&String> = match scrutinee_ty {
            Type::Named(name) => Some(name),
            Type::Error => {
                return;
            },
            _ => None,
        };
        // Name checks.
        match enum_name {
            Some(en) => {
                if let Some(expected) = expected_enum {
                    if !crate::text::str_eq(en.name.as_str(), expected.as_str()) {
                        self.error(CheckError::type_mismatch(expected.as_str(), en.name.as_str(), span));
                        return;
                    }
                }
                match self.lookup_enum(en.name.as_str()) {
                    Some(info) => {
                        if !info.has_variant(variant.name.as_str()) {
                            proof {
                                lemma_variant_index(info.variants@, variant.name@);
                            }
                            self.error(CheckError::undefined_enum_variant(variant.name.as_str(), en.name.as_str(), span));
                        } else {
                            proof {
                                lemma_variant_index(info.variants@, variant.name@);
                            }
                        }
                    },
                    None => {
                        self.error(CheckError::undefined_type(en.name.as_str(), span));
                    },
                }
            },
            None => {
                match expected_enum {
                    Some(n) => {
                        match self.lookup_enum(n.as_str()) {
                            Some(info) => {
                                proof {
                                    lemma_variant_index(info.variants@, variant.name@);
                                }
                                if !info.has_variant(variant.name.as_str()) {
                                    self.error(CheckError::undefined_enum_variant(variant.name.as_str(), n.as_str(), span));
                                }
                            },
                            None => {},
                        }
                    },
                    None => {
                        let f = scrutinee_ty.to_display_string();
                        self.error(CheckError::type_mismatch("enum type", f.as_str(), span));
                    },
                }
            },
        }
        // Payload.
        let lookup: Option<&String> = match enum_name {
            Some(en) => Some(&en.name),
            None => expected_enum,
        };
        if let Some(ln) = lookup {
            let expected_payload: Option<Option<Type>> = match self.lookup_enum(ln.as_str()) {
                Some(info) => match info.get_variant_payload(variant.name.as_str()) {
                    Some(Some(t)) => Some(Some(t.deep_copy())),
                    Some(None) => Some(None),
                    None => None,
                },
                None => None,
            };
            match expected_payload {
                Some(Some(payload_ty)) => {
                    if let Some(inner) = payload {
                        self.check_pattern(inner, &payload_ty);
                    }
                },
                Some(None) => {
                    if payload.is_some() {
                        let mut found = variant.name.clone();
                        found.append("(...)");
                        self.error(CheckError::type_mismatch(variant.name.as_str(), found.as_str(), span));
                    }
                },
                None => {},
            }
        }
    }

    /// Record a `TypeMismatch` unless `found` is compatible with `expected`.
    fn expect(&mut self, expected: &Type, found: &Type, span: &Span)
        requires
            old(self).inv(),
        ensures
            final(self).frame(*old(self)),
            final(self).st() == expect_v(old(self).st(), expected@, found@, *span),
    {
        if !found.is_compatible_with(expected) {
            let e = expected.to_display_string();
            let f = found.to_display_string();
            self.error(CheckError::type_mismatch(e.as_str(), f.as_str(), span));
        }
    }

    /// Record an `UnhandledError` for a fallible operation outside `try`/`catch`.
    fn unhandled(&mut self, what: &str, span: &Span)
        requires
            old(self).inv(),
        ensures
            final(self).frame(*old(self)),
            final(self).st() == unhandled_v(old(self).ctx(), old(self).st(), what@, *span),
    {
        if !self.in_error_handling {
            self.error(CheckError::unhandled_error(what, span));
        }
    }

    /// Check an expression and give its type.
    fn check_expr(&mut self, expr: &Expr) -> (r: Type)
        requires
            old(self).inv(),
        ensures
            final(self).frame(*old(self)),
            (final(self).st(), r@) == expr_v(old(self).ctx(), old(self).st(), *expr),
        decreases expr, 3int,
    {
        match expr {
            Expr::Literal { value, .. } => match value {
                Literal::Int(_) => Type::Int,
                Literal::Float(_) => Type::Float,
                Literal::Bool(_) => Type::Bool,
                Literal::String(_) => Type::String,
            },
            Expr::Var { name, .. } => self.lookup_var(name.name.as_str(), &name.span),
            Expr::List { .. } => self.check_list(expr),
            Expr::Binary { op, left, right, span } => {
                let left_ty = self.check_expr(left);
                let right_ty = self.check_expr(right);
                self.check_binary_op(*op, &left_ty, &right_ty, span)
            },
            Expr::Unary { op, operand, span } => {
                let operand_ty = self.check_expr(operand);
                self.check_unary_op(*op, &operand_ty, span)
            },
            Expr::Call { .. } => self.check_call(expr),
            Expr::SelfField { field, span } => self.check_self_field(field.name.as_str(), span),
            Expr::SelfMethodCall { method, span, .. } => {
                self.error(CheckError::undefined_function(method.name.as_str(), span));
                Type::Error
            },
            Expr::Infer { template, result_ty, span } => self.check_infer(template, result_ty, span),
            Expr::Spawn { .. } => self.check_spawn(expr),
            Expr::Await { handle, span } => {
                let handle_ty = self.check_expr(handle);
                self.unhandled("await", span);
                self.await_result(&handle_ty, span)
            },
            Expr::Send { .. } => self.check_send(expr),
            Expr::Emit { value, .. } => {
                let value_ty = self.check_expr(value);
                self.record_emit(value_ty);
                Type::Unit
            },
            Expr::Paren { inner, .. } => self.check_expr(inner),
            Expr::StringInterp { template, .. } => {
                self.check_interp(&template.parts);
                Type::String
            },
            Expr::Match { .. } => self.check_match(expr),
            Expr::RecordConstruct { .. } => self.check_record(expr),
            Expr::FieldAccess { object, field, span } => {
                let obj_ty = self.check_expr(object);
                self.field_access(&obj_ty, field.name.as_str(), span)
            },
            Expr::Receive { span } => self.check_receive(span),
            Expr::Try { expr: inner, span } => {
                self.check_try_context(span);
                let ghost c1 = self.ctx();
                let old_eh = self.in_error_handling;
                self.in_error_handling = true;
                assert(self.ctx() == Ctx { in_error_handling: true, ..c1 });
                let inner_ty = self.check_expr(inner);
                self.in_error_handling = old_eh;
                inner_ty
            },
            Expr::Catch { .. } => self.check_catch(expr),
            Expr::Closure { .. } => self.check_closure(expr),
            Expr::Tuple { elements, .. } => {
                let tys = self.check_exprs(elements);
                proof {
                    lemma_types_of(tys@);
                }
                Type::Tuple(tys)
            },
            Expr::TupleIndex { tuple, index, span } => {
                let tuple_ty = self.check_expr(tuple);
                self.tuple_index(&tuple_ty, *index, span)
            },
            Expr::Dict { .. } => self.check_dict(expr),
            Expr::VariantConstruct { .. } => self.check_variant_construct(expr),
            Expr::ToolCall { .. } => self.check_tool_call(expr),
        }
    }

    /// Reading `self.field` in an agent handler.
    fn check_self_field(&mut self, field: &str, span: &Span) -> (r: Type)
        requires
            old(self).inv(),
        ensures
            final(self).frame(*old(self)),
            (final(self).st(), r@) == self_field_v(old(self).ctx(), old(self).st(), field@, *span),
    {
        let belief: Option<Option<Type>> = match &self.current_agent {
            None => None,
            Some(agent_name) => match self.lookup_agent(agent_name.as_str()) {
                None => Some(None),
                Some(agent) => match agent.beliefs.get(field) {
                    Some(t) => Some(Some(t.deep_copy())),
                    None => Some(None),
                },
            },
        };
        match belief {
            None => {
                self.error(CheckError::self_outside_agent(span));
                Type::Error
            },
            Some(Some(t)) => {
                self.used_beliefs.insert(String::from_str(field));
                t
            },
            Some(None) => {
                let known = match &self.current_agent {
                    Some(a) => self.lookup_agent(a.as_str()).is_some(),
                    None => false,
                };
                if known {
                    self.error(CheckError::undefined_belief(field, span));
                }
                Type::Error
            },
        }
    }

    /// Mark the beliefs read by the `self.` interpolations of a template.
    fn mark_template_beliefs(&mut self, parts: &Vec<StringPart>)
        requires
            old(self).inv(),
        ensures
            final(self).frame(*old(self)),
            final(self).st() == (St { used: infer_used(old(self).st().used, parts@), ..old(self).st() }),
    {
        let ghost s0 = self.st();
        let n = parts.len();
        assert(parts@.subrange(0, 0) =~= Seq::<StringPart>::empty());
        for i in 0..n
            invariant
                n == parts@.len(),
                self.frame(*old(self)),
                self.st() == (St { used: infer_used(s0.used, parts@.subrange(0, i as int)), ..s0 }),
        {
            assert(parts@.subrange(0, i + 1).drop_last() =~= parts@.subrange(0, i as int));
            if let StringPart::Interpolation(ident) = &parts[i] {
                if let Some(field) = strip_self(ident.name.as_str()) {
                    self.used_beliefs.insert(String::from_str(field));
                }
            }
        }
        assert(parts@.subrange(0, n as int) =~= parts@);
    }

    /// `infer(template)`: fallible (but for a module of a tree); its result
    /// is `Inferred<T>`.
    fn check_infer(&mut self, template: &crate::ast::StringTemplate, result_ty: &Option<crate::ast::TypeExpr>, span: &Span) -> (r: Type)
        requires
            old(self).inv(),
        ensures
            final(self).frame(*old(self)),
            !old(self).ctx().modular ==> final(self).st() == (St {
                used: infer_used(unhandled_v(old(self).ctx(), old(self).st(), "infer"@, *span).used, template.parts@),
                ..unhandled_v(old(self).ctx(), old(self).st(), "infer"@, *span)
            }),
            old(self).ctx().modular ==> final(self).st() == (St {
                used: infer_used(old(self).st().used, template.parts@),
                ..old(self).st()
            }),
            r@ == TypeV::Inferred(Box::new(match *result_ty {
                Some(t) => declared(t),
                None => TypeV::Str,
            })),
    {
        if !self.modular {
            self.unhandled("infer", span);
        }
        self.mark_template_beliefs(&template.parts);
        let inner = match result_ty {
            Some(t) => resolve_type(t),
            None => Type::String,
        };
        Type::Inferred(Box::new(inner))
    }

    /// The type of `await` on a handle of the given type.
    fn await_result(&mut self, handle_ty: &Type, span: &Span) -> (r: Type)
        requires
            old(self).inv(),
        ensures
            final(self).frame(*old(self)),
            (final(self).st(), r@) == (match handle_ty@ {
                TypeV::Agent(n) => (old(self).st(), await_type(old(self).ctx(), old(self).st(), n)),
                TypeV::Error => (old(self).st(), TypeV::Error),
                _ => (push_err(old(self).st(), ErrV::AwaitNonAgent { ty: display(handle_ty@), span: *span }), TypeV::Error),
            }),
    {
        match handle_ty.agent_name() {
            Some(agent_name) => if self.modular {
                match self.frozen_emit(agent_name) {
                    Some(t) => t,
                    None => Type::String,
                }
            } else {
                match self.emitted.get(agent_name) {
                    Some(t) => t.deep_copy(),
                    None => Type::String,
                }
            },
            None => {
                if !handle_ty.is_error() {
                    let d = handle_ty.to_display_string();
                    self.error(CheckError::await_non_agent(d.as_str(), span));
                }
                Type::Error
            },
        }
    }

    /// Record the type the current agent emits.
    fn record_emit(&mut self, value_ty: Type)
        requires
            old(self).inv(),
        ensures
            final(self).frame(*old(self)),
            final(self).st() == (match old(self).ctx().current_agent {
                Some(a) => if old(self).ctx().modular || old(self).ctx().agents().contains_key(a) {
                    St { emits: old(self).st().emits.insert(a, value_ty@), ..old(self).st() }
                } else {
                    old(self).st()
                },
                None => old(self).st(),
            }),
    {
        let name: Option<String> = match &self.current_agent {
            Some(a) => if self.modular || self.lookup_agent(a.as_str()).is_some() {
                Some(a.clone())
            } else {
                None
            },
            None => None,
        };
        if let Some(a) = name {
            let ghost m0 = self.emitted@;
            let ghost tv = value_ty@;
            self.emitted.insert(a, value_ty);
            assert(self.emitted@.map_values(|t: Type| t@) =~= m0.map_values(|t: Type| t@).insert(
                self.current_agent->0@,
                tv,
            ));
        }
    }

    /// Check the interpolations of a string.
    fn check_interp(&mut self, parts: &Vec<StringPart>)
        requires
            old(self).inv(),
        ensures
            final(self).frame(*old(self)),
            final(self).st() == interp_v(old(self).ctx(), old(self).st(), parts@),
    {
        let ghost c0 = self.ctx();
        let ghost s0 = self.st();
        let n = parts.len();
        assert(parts@.subrange(0, 0) =~= Seq::<StringPart>::empty());
        for i in 0..n
            invariant
                n == parts@.len(),
                self.frame(*old(self)),
                c0 == old(self).ctx(),
                self.st() == interp_v(c0, s0, parts@.subrange(0, i as int)),
        {
            assert(parts@.subrange(0, i + 1).drop_last() =~= parts@.subrange(0, i as int));
            if let StringPart::Interpolation(ident) = &parts[i] {
                match strip_self(ident.name.as_str()) {
                    Some(field) => {
                        // 0: outside any agent; 1: unknown agent; 2: a belief; 3: not a belief
                        let status: u8 = match &self.current_agent {
                            None => 0,
                            Some(a) => match self.lookup_agent(a.as_str()) {
                                None => 1,
                                Some(agent) => if agent.beliefs.contains(field) {
                                    2
                                } else {
                                    3
                                },
                            },
                        };
                        if status == 0 {
                            self.error(CheckError::self_outside_agent(&ident.span));
                        } else if status == 2 {
                            self.used_beliefs.insert(String::from_str(field));
                        } else if status == 3 {
                            self.error(CheckError::undefined_belief(field, &ident.span));
                        }
                    },
                    None => {
                        let _ = self.lookup_var(ident.name.as_str(), &ident.span);
                    },
                }
            }
        }
        assert(parts@.subrange(0, n as int) =~= parts@);
    }

    /// Field access on a value of the given type.
    fn field_access(&mut self, obj_ty: &Type, field: &str, span: &Span) -> (r: Type)
        requires
            old(self).inv(),
        ensures
            final(self).frame(*old(self)),
            (final(self).st(), r@) == field_access_v(old(self).ctx(), old(self).st(), obj_ty@, field@, *span),
    {
        match obj_ty {
            Type::Named(name) => {
                // None: not a record; Some(None): no such field.
                let found: Option<Option<Type>> = match self.lookup_record(name.as_str()) {
                    Some(info) => match info.fields.get(field) {
                        Some(t) => Some(Some(t.deep_copy())),
                        None => Some(None),
                    },
                    None => None,
                };
                match found {
                    Some(Some(t)) => t,
                    Some(None) => {
                        self.error(CheckError::unknown_field(field, span));
                        Type::Error
                    },
                    None => {
                        let d = obj_ty.to_display_string();
                        self.error(CheckError::field_access_on_non_record(d.as_str(), span));
                        Type::Error
                    },
                }
            },
            Type::Error => Type::Error,
            _ => {
                let d = obj_ty.to_display_string();
                self.error(CheckError::field_access_on_non_record(d.as_str(), span));
                Type::Error
            },
        }
    }

    /// `receive()`: the current agent's `receives` type.
    fn check_receive(&mut self, span: &Span) -> (r: Type)
        requires
            old(self).inv(),
        ensures
            final(self).frame(*old(self)),
            (final(self).st(), r@) == expr_v(old(self).ctx(), old(self).st(), Expr::Receive { span: *span }),
    {
        match &self.current_agent {
            None => {
                self.error(CheckError::receive_outside_agent(span));
                Type::Error
            },
            Some(a) => match &self.receives_type {
                Some(t) => t.deep_copy(),
                None => {
                    let name = a.clone();
                    self.error(CheckError::receive_without_receives(name.as_str(), span));
                    Type::Error
                },
            },
        }
    }

    /// The context check of `try`.
    fn check_try_context(&mut self, span: &Span)
        requires
            old(self).inv(),
        ensures
            final(self).frame(*old(self)),
            final(self).st() == try_context_v(old(self).ctx(), old(self).st(), *span),
    {
        if !self.in_fallible_context {
            match &self.current_agent {
                Some(a) => {
                    if !self.agent_has_error_handler {
                        let name = a.clone();
                        self.error(CheckError::missing_error_handler(name.as_str(), span));
                    }
                },
                None => {
                    self.error(CheckError::try_in_non_fallible(span));
                },
            }
        }
    }

    /// Indexing a value of the given type with a tuple index.
    fn tuple_index(&mut self, tuple_ty: &Type, index: usize, span: &Span) -> (r: Type)
        requires
            old(self).inv(),
        ensures
            final(self).frame(*old(self)),
            (final(self).st(), r@) == (match tuple_ty@ {
                TypeV::Tuple(ts) => if index < ts.len() {
                    (old(self).st(), ts[index as int])
                } else {
                    (push_err(old(self).st(), ErrV::TupleIndexOutOfBounds { index: index as nat, len: ts.len(), span: *span }), TypeV::Error)
                },
                TypeV::Error => (old(self).st(), TypeV::Error),
                _ => (push_err(old(self).st(), ErrV::TypeMismatch { expected: "tuple"@, found: display(tuple_ty@), span: *span }), TypeV::Error),
            }),
    {
        match tuple_ty {
            Type::Tuple(elems) => {
                proof {
                    lemma_view_types(elems@);
                }
                if index < elems.len() {
                    elems[index].deep_copy()
                } else {
                    self.error(CheckError::tuple_index_out_of_bounds(index, elems.len(), span));
                    Type::Error
                }
            },
            Type::Error => Type::Error,
            _ => {
                let d = tuple_ty.to_display_string();
                self.error(CheckError::type_mismatch("tuple", d.as_str(), span));
                Type::Error
            },
        }
    }

    /// Check expressions left to right, giving their types.
    fn check_exprs(&mut self, es: &Vec<Expr>) -> (r: Vec<Type>)
        requires
            old(self).inv(),
        ensures
            final(self).frame(*old(self)),
            (final(self).st(), types_of(r@)) == exprs_v(old(self).ctx(), old(self).st(), es@),
        decreases es, 0int,
    {
        let ghost c0 = self.ctx();
        let ghost s0 = self.st();
        let mut r: Vec<Type> = Vec::new();
        let n = es.len();
        assert(es@.subrange(0, 0) =~= Seq::<Expr>::empty());
        assert(types_of(r@) =~= Seq::<TypeV>::empty());
        for i in 0..n
            invariant
                n == es@.len(),
                self.frame(*old(self)),
                c0 == old(self).ctx(),
                (self.st(), types_of(r@)) == exprs_v(c0, s0, es@.subrange(0, i as int)),
        {
            assert(es@.subrange(0, i + 1).drop_last() =~= es@.subrange(0, i as int));
            assert(decreases_to!(es => es@[i as int]));
            let ghost r0 = r@;
            let t = self.check_expr(&es[i]);
            r.push(t);
            assert(types_of(r@) =~= types_of(r0).push(r@.last()@));
        }
        assert(es@.subrange(0, n as int) =~= es@);
        r
    }

    /// Check expressions left to right against expected types.
    fn check_args(&mut self, es: &Vec<Expr>, expected: &Vec<Type>)
        requires
            old(self).inv(),
            es@.len() == expected@.len(),
        ensures
            final(self).frame(*old(self)),
            final(self).st() == args_v(old(self).ctx(), old(self).st(), es@, types_of(expected@)),
        decreases es, 0int,
    {
        let ghost c0 = self.ctx();
        let ghost s0 = self.st();
        let ghost ts = types_of(expected@);
        let n = es.len();
        assert(es@.subrange(0, 0) =~= Seq::<Expr>::empty());
        for i in 0..n
            invariant
                n == es@.len(),
                n == expected@.len(),
                ts == types_of(expected@),
                self.frame(*old(self)),
                c0 == old(self).ctx(),
                self.st() == args_v(c0, s0, es@.subrange(0, i as int), ts),
        {
            assert(es@.subrange(0, i + 1).drop_last() =~= es@.subrange(0, i as int));
            assert(decreases_to!(es => es@[i as int]));
            let t = self.check_expr(&es[i]);
            let sp = es[i].span();
            self.expect(&expected[i], &t, &sp);
        }
        assert(es@.subrange(0, n as int) =~= es@);
    }

    /// Check `es[start..]` left to right, each against the same expected type.
    fn check_same(&mut self, es: &Vec<Expr>, start: usize, expected: &Type)
        requires
            old(self).inv(),
            start <= es@.len(),
        ensures
            final(self).frame(*old(self)),
            final(self).st() == same_v(
                old(self).ctx(),
                old(self).st(),
                es@.subrange(start as int, es@.len() as int),
                expected@,
            ),
        decreases es, 0int,
    {
        let ghost c0 = self.ctx();
        let ghost s0 = self.st();
        let n = es.len();
        assert(es@.subrange(start as int, start as int) =~= Seq::<Expr>::empty());
        for i in start..n
            invariant
                n == es@.len(),
                start <= n,
                self.frame(*old(self)),
                c0 == old(self).ctx(),
                self.st() == same_v(c0, s0, es@.subrange(start as int, i as int), expected@),
        {
            assert(es@.subrange(start as int, i + 1).drop_last() =~= es@.subrange(start as int, i as int));
            assert(decreases_to!(es => es@[i as int]));
            let t = self.check_expr(&es[i]);
            let sp = es[i].span();
            self.expect(expected, &t, &sp);
        }
    }

    /// A list literal.
    fn check_list(&mut self, expr: &Expr) -> (r: Type)
        requires
            old(self).inv(),
            expr is List,
        ensures
            final(self).frame(*old(self)),
            (final(self).st(), r@) == list_v(old(self).ctx(), old(self).st(), *expr),
        decreases expr, 2int,
    {
        let Expr::List { elements, .. } = expr else {
            return Type::Error;
        };
        if elements.len() == 0 {
            let r = Type::List(Box::new(Type::Error));
            assert(r@ == TypeV::List(Box::new(TypeV::Error))) by {
                reveal_with_fuel(crate::types::type_view, 2);
            }
            return r;
        }
        assert(decreases_to!(expr => elements@[0]));
        let first_ty = self.check_expr(&elements[0]);
        self.check_same(elements, 1, &first_ty);
        Type::List(Box::new(first_ty))
    }

    /// The declared type of a field of an agent (its beliefs) or a record.
    fn decl_field(&self, is_agent: bool, owner: &str, field: &str) -> (r: Option<Type>)
        requires
            self.inv(),
            is_agent ==> self.ctx().agents().contains_key(owner@),
            !is_agent ==> self.ctx().records().contains_key(owner@),
        ensures
            opt_tv(r) == (if is_agent {
                let d = self.ctx().agents()[owner@].beliefs@;
                if d.contains_key(field@) { Some(d[field@]@) } else { None }
            } else {
                let d = self.ctx().records()[owner@].fields@;
                if d.contains_key(field@) { Some(d[field@]@) } else { None }
            }),
    {
        if is_agent {
            match self.lookup_agent(owner) {
                Some(info) => match info.beliefs.get(field) {
                    Some(t) => Some(t.deep_copy()),
                    None => None,
                },
                None => None,
            }
        } else {
            match self.lookup_record(owner) {
                Some(info) => match info.fields.get(field) {
                    Some(t) => Some(t.deep_copy()),
                    None => None,
                },
                None => None,
            }
        }
    }

    /// Check field initializers against an agent's beliefs or a record's fields.
    fn check_inits(&mut self, is_agent: bool, owner: &str, fields: &Vec<FieldInit>)
        requires
            old(self).inv(),
            is_agent ==> old(self).ctx().agents().contains_key(owner@),
            !is_agent ==> old(self).ctx().records().contains_key(owner@),
        ensures
            final(self).frame(*old(self)),
            final(self).st() == inits_v(
                old(self).ctx(),
                old(self).st(),
                fields@,
                if is_agent {
                    old(self).ctx().agents()[owner@].beliefs@
                } else {
                    old(self).ctx().records()[owner@].fields@
                },
            ),
        decreases fields, 0int,
    {
        let ghost c0 = self.ctx();
        let ghost s0 = self.st();
        let ghost decl = if is_agent {
            c0.agents()[owner@].beliefs@
        } else {
            c0.records()[owner@].fields@
        };
        let n = fields.len();
        assert(fields@.subrange(0, 0) =~= Seq::<FieldInit>::empty());
        for i in 0..n
            invariant
                n == fields@.len(),
                self.frame(*old(self)),
                c0 == old(self).ctx(),
                is_agent ==> c0.agents().contains_key(owner@),
                !is_agent ==> c0.records().contains_key(owner@),
                decl == (if is_agent {
                    c0.agents()[owner@].beliefs@
                } else {
                    c0.records()[owner@].fields@
                }),
                self.st() == inits_v(c0, s0, fields@.subrange(0, i as int), decl),
        {
            assert(fields@.subrange(0, i + 1).drop_last() =~= fields@.subrange(0, i as int));
            let field = &fields[i];
            match self.decl_field(is_agent, owner, field.name.name.as_str()) {
                Some(expected) => {
                    assert(decreases_to!(fields => fields@[i as int].value));
                    let actual = self.check_expr(&field.value);
                    let sp = field.value.span();
                    self.expect(&expected, &actual, &sp);
                },
                None => {
                    self.error(CheckError::unknown_field(field.name.name.as_str(), &field.span));
                },
            }
        }
        assert(fields@.subrange(0, n as int) =~= fields@);
    }

    /// `MissingBeliefInit` for each belief of the agent that no initializer provides.
    fn report_missing_beliefs(&mut self, agent: &str, fields: &Vec<FieldInit>, span: &Span)
        requires
            old(self).inv(),
            old(self).ctx().agents().contains_key(agent@),
        ensures
            final(self).frame(*old(self)),
            final(self).st() == missing_beliefs_v(
                old(self).st(),
                old(self).ctx().agents()[agent@].beliefs.entry_seq(),
                fields@,
                *span,
            ),
    {
        let ghost s0 = self.st();
        let ghost entries = self.ctx().agents()[agent@].beliefs.entry_seq();
        let names: Vec<String> = match self.lookup_agent(agent) {
            Some(info) => entry_names(info.beliefs.entries()),
            None => Vec::new(),
        };
        let n = names.len();
        assert(entries.subrange(0, 0) =~= Seq::<(String, Type)>::empty());
        for i in 0..n
            invariant
                n == names@.len(),
                n == entries.len(),
                forall|k: int| 0 <= k < n ==> #[trigger] names@[k]@ == entries[k].0@,
                self.frame(*old(self)),
                self.st() == missing_beliefs_v(s0, entries.subrange(0, i as int), fields@, *span),
        {
            assert(entries.subrange(0, i + 1).drop_last() =~= entries.subrange(0, i as int));
            if !provides_name(fields, names[i].as_str()) {
                self.error(CheckError::missing_belief_init(names[i].as_str(), span));
            }
        }
        assert(entries.subrange(0, n as int) =~= entries);
    }

    /// `MissingField` for each field of the record that no initializer provides.
    fn report_missing_fields(&mut self, record: &str, fields: &Vec<FieldInit>, span: &Span)
        requires
            old(self).inv(),
            old(self).ctx().records().contains_key(record@),
        ensures
            final(self).frame(*old(self)),
            final(self).st() == missing_fields_v(
                old(self).st(),
                old(self).ctx().records()[record@].fields.entry_seq(),
                fields@,
                record@,
                *span,
            ),
    {
        let ghost s0 = self.st();
        let ghost entries = self.ctx().records()[record@].fields.entry_seq();
        let names: Vec<String> = match self.lookup_record(record) {
            Some(info) => entry_names(info.fields.entries()),
            None => Vec::new(),
        };
        let n = names.len();
        assert(entries.subrange(0, 0) =~= Seq::<(String, Type)>::empty());
        for i in 0..n
            invariant
                n == names@.len(),
                n == entries.len(),
                forall|k: int| 0 <= k < n ==> #[trigger] names@[k]@ == entries[k].0@,
                self.frame(*old(self)),
                self.st() == missing_fields_v(s0, entries.subrange(0, i as int), fields@, record@, *span),
        {
            assert(entries.subrange(0, i + 1).drop_last() =~= entries.subrange(0, i as int));
            if !provides_name(fields, names[i].as_str()) {
                self.error(CheckError::missing_field(names[i].as_str(), record, span));
            }
        }
        assert(entries.subrange(0, n as int) =~= entries);
    }

    /// `spawn Agent { beliefs }`.
    fn check_spawn(&mut self, expr: &Expr) -> (r: Type)
        requires
            old(self).inv(),
            expr is Spawn,
        ensures
            final(self).frame(*old(self)),
            (final(self).st(), r@) == spawn_v(old(self).ctx(), old(self).st(), *expr),
        decreases expr, 2int,
    {
        let Expr::Spawn { agent, fields, span } = expr else {
            return Type::Error;
        };
        if !self.lookup_agent(agent.name.as_str()).is_some() {
            self.error(CheckError::undefined_agent(agent.name.as_str(), span));
            return Type::Error;
        }
        self.check_inits(true, agent.name.as_str(), fields);
        self.report_missing_beliefs(agent.name.as_str(), fields, span);
        Type::Agent(agent.name.clone())
    }

    /// Record construction.
    fn check_record(&mut self, expr: &Expr) -> (r: Type)
        requires
            old(self).inv(),
            expr is RecordConstruct,
        ensures
            final(self).frame(*old(self)),
            (final(self).st(), r@) == record_v(old(self).ctx(), old(self).st(), *expr),
        decreases expr, 2int,
    {
        let Expr::RecordConstruct { name, fields, span } = expr else {
            return Type::Error;
        };
        if !self.lookup_record(name.name.as_str()).is_some() {
            self.error(CheckError::undefined_type(name.name.as_str(), span));
            return Type::Error;
        }
        self.check_inits(false, name.name.as_str(), fields);
        self.report_missing_fields(name.name.as_str(), fields, span);
        Type::Named(name.name.clone())
    }

    /// Sending a message to an agent.
    fn check_send(&mut self, expr: &Expr) -> (r: Type)
        requires
            old(self).inv(),
            expr is Send,
        ensures
            final(self).frame(*old(self)),
            (final(self).st(), r@) == send_v(old(self).ctx(), old(self).st(), *expr),
        decreases expr, 2int,
    {
        let Expr::Send { handle, message, span } = expr else {
            return Type::Error;
        };
        self.unhandled("send", span);
        let handle_ty = self.check_expr(handle);
        let msg_ty = self.check_expr(message);
        match handle_ty.agent_name() {
            Some(agent_name) => {
                // None: no such agent; Some(None): no message handler.
                let expected: Option<Option<Type>> = match self.lookup_agent(agent_name) {
                    Some(info) => match &info.message_type {
                        Some(t) => Some(Some(t.deep_copy())),
                        None => Some(None),
                    },
                    None => None,
                };
                match expected {
                    Some(Some(t)) => {
                        let sp = message.span();
                        self.expect(&t, &msg_ty, &sp);
                    },
                    Some(None) => {
                        self.error(CheckError::no_message_handler(agent_name, span));
                    },
                    None => {},
                }
            },
            None => {
                if !handle_ty.is_error() {
                    let d = handle_ty.to_display_string();
                    self.error(CheckError::send_non_agent(d.as_str(), span));
                }
            },
        }
        Type::Unit
    }

    /// Whether the arms cover every value of the scrutinee type.
    fn is_exhaustive(&self, arms: &Vec<MatchArm>, scrutinee_ty: &Type) -> (r: bool)
        requires
            self.inv(),
        ensures
            r == exhaustive(self.ctx(), arms@, scrutinee_ty@),
    {
        if has_wildcard_arm(arms) {
            return true;
        }
        match scrutinee_ty {
            Type::Named(name) => match self.lookup_enum(name.as_str()) {
                Some(info) => {
                    let n = info.variants.len();
                    for i in 0..n
                        invariant
                            n == info.variants@.len(),
                            self.inv(),
                            !arms_have_wildcard(arms@),
                            scrutinee_ty@ == TypeV::Named(name@),
                            self.ctx().enums().contains_key(name@),
                            info.variants@ == enum_variants(self.ctx(), name@),
                            forall|k: int| 0 <= k < i ==> #[trigger] arms_cover_variant(arms@, info.variants@[k].0@),
                    {
                        if !covers_variant(arms, info.variants[i].0.as_str()) {
                            assert(!arms_cover_variant(arms@, enum_variants(self.ctx(), name@)[i as int].0@));
                            return false;
                        }
                    }
                    true
                },
                None => false,
            },
            Type::Bool => covers_bool(arms, true) && covers_bool(arms, false),
            Type::Error => true,
            _ => false,
        }
    }

    /// Check match arms in order, each in its own scope.
    fn check_arms(&mut self, arms: &Vec<MatchArm>, scrutinee_ty: &Type) -> (r: Type)
        requires
            old(self).inv(),
        ensures
            final(self).frame(*old(self)),
            (final(self).st(), r@) == arms_v(old(self).ctx(), old(self).st(), arms@, scrutinee_ty@),
        decreases arms, 0int,
    {
        let ghost c0 = self.ctx();
        let ghost s0 = self.st();
        let mut result_ty = Type::Error;
        let n = arms.len();
        assert(arms@.subrange(0, 0) =~= Seq::<MatchArm>::empty());
        for i in 0..n
            invariant
                n == arms@.len(),
                self.frame(*old(self)),
                c0 == old(self).ctx(),
                (self.st(), result_ty@) == arms_v(c0, s0, arms@.subrange(0, i as int), scrutinee_ty@),
        {
            assert(arms@.subrange(0, i + 1).drop_last() =~= arms@.subrange(0, i as int));
            self.push_scope();
            self.check_pattern(&arms[i].pattern, scrutinee_ty);
            assert(decreases_to!(arms => arms@[i as int].body));
            let arm_ty = self.check_expr(&arms[i].body);
            self.pop_scope();
            if result_ty.is_error() {
                result_ty = arm_ty;
            }
        }
        assert(arms@.subrange(0, n as int) =~= arms@);
        result_ty
    }

    /// A `match` expression.
    fn check_match(&mut self, expr: &Expr) -> (r: Type)
        requires
            old(self).inv(),
            expr is Match,
        ensures
            final(self).frame(*old(self)),
            (final(self).st(), r@) == match_v(old(self).ctx(), old(self).st(), *expr),
        decreases expr, 2int,
    {
        let Expr::Match { scrutinee, arms, span } = expr else {
            return Type::Error;
        };
        let scrutinee_ty = self.check_expr(scrutinee);
        let result_ty = self.check_arms(arms, &scrutinee_ty);
        if !self.is_exhaustive(arms, &scrutinee_ty) {
            self.error(CheckError::non_exhaustive_match(span));
        }
        result_ty
    }

    /// `expr catch [e] { recovery }`.
    fn check_catch(&mut self, expr: &Expr) -> (r: Type)
        requires
            old(self).inv(),
            expr is Catch,
        ensures
            final(self).frame(*old(self)),
            (final(self).st(), r@) == catch_v(old(self).ctx(), old(self).st(), *expr),
        decreases expr, 2int,
    {
        let Expr::Catch { expr: inner, error_bind, recovery, span } = expr else {
            return Type::Error;
        };
        let ghost c0 = self.ctx();
        let old_eh = self.in_error_handling;
        self.in_error_handling = true;
        assert(self.ctx() == Ctx { in_error_handling: true, ..c0 });
        let expr_ty = self.check_expr(inner);
        self.in_error_handling = old_eh;
        self.push_scope();
        if let Some(err_ident) = error_bind {
            self.define_var(err_ident.name.as_str(), Type::Named(String::from_str("Error")));
        }
        let recovery_ty = self.check_expr(recovery);
        self.pop_scope();
        if !recovery_ty.is_compatible_with(&expr_ty) && !expr_ty.is_error() {
            let e = expr_ty.to_display_string();
            let f = recovery_ty.to_display_string();
            self.error(CheckError::catch_type_mismatch(e.as_str(), f.as_str(), span));
        }
        expr_ty
    }

    /// Bind closure parameters in the innermost scope, giving their types.
    fn bind_closure_params(&mut self, params: &Vec<crate::ast::ClosureParam>) -> (r: Vec<Type>)
        requires
            old(self).inv(),
        ensures
            final(self).frame(*old(self)),
            (final(self).st(), types_of(r@)) == closure_params_v(old(self).st(), params@),
    {
        let ghost s0 = self.st();
        let mut r: Vec<Type> = Vec::new();
        let n = params.len();
        assert(params@.subrange(0, 0) =~= Seq::<crate::ast::ClosureParam>::empty());
        assert(types_of(r@) =~= Seq::<TypeV>::empty());
        for i in 0..n
            invariant
                n == params@.len(),
                self.frame(*old(self)),
                (self.st(), types_of(r@)) == closure_params_v(s0, params@.subrange(0, i as int)),
        {
            assert(params@.subrange(0, i + 1).drop_last() =~= params@.subrange(0, i as int));
            let param = &params[i];
            let param_ty = match &param.ty {
                Some(ty_expr) => resolve_type(ty_expr),
                None => {
                    self.error(CheckError::closure_param_needs_type(param.name.name.as_str(), &param.span));
                    Type::Error
                },
            };
            self.define_var(param.name.name.as_str(), param_ty.deep_copy());
            let ghost r0 = r@;
            r.push(param_ty);
            assert(types_of(r@) =~= types_of(r0).push(r@.last()@));
        }
        assert(params@.subrange(0, n as int) =~= params@);
        r
    }

    /// A closure.
    fn check_closure(&mut self, expr: &Expr) -> (r: Type)
        requires
            old(self).inv(),
            expr is Closure,
        ensures
            final(self).frame(*old(self)),
            (final(self).st(), r@) == closure_v(old(self).ctx(), old(self).st(), *expr),
        decreases expr, 2int,
    {
        let Expr::Closure { params, body, .. } = expr else {
            return Type::Error;
        };
        self.push_scope();
        let param_types = self.bind_closure_params(params);
        let body_ty = self.check_expr(body);
        self.pop_scope();
        proof {
            lemma_types_of(param_types@);
        }
        Type::Fn(param_types, Box::new(body_ty))
    }

    /// Check map entries `es[start..]` against the given key and value types.
    fn check_entries(&mut self, es: &Vec<MapEntry>, start: usize, kt: &Type, vt: &Type)
        requires
            old(self).inv(),
            start <= es@.len(),
        ensures
            final(self).frame(*old(self)),
            final(self).st() == entries_v(
                old(self).ctx(),
                old(self).st(),
                es@.subrange(start as int, es@.len() as int),
                kt@,
                vt@,
            ),
        decreases es, 0int,
    {
        let ghost c0 = self.ctx();
        let ghost s0 = self.st();
        let n = es.len();
        assert(es@.subrange(start as int, start as int) =~= Seq::<MapEntry>::empty());
        for i in start..n
            invariant
                n == es@.len(),
                start <= n,
                self.frame(*old(self)),
                c0 == old(self).ctx(),
                self.st() == entries_v(c0, s0, es@.subrange(start as int, i as int), kt@, vt@),
        {
            assert(es@.subrange(start as int, i + 1).drop_last() =~= es@.subrange(start as int, i as int));
            let entry = &es[i];
            assert(decreases_to!(es => es@[i as int].key));
            let key_ty = self.check_expr(&entry.key);
            assert(decreases_to!(es => es@[i as int].value));
            let val_ty = self.check_expr(&entry.value);
            self.expect(kt, &key_ty, &entry.span);
            self.expect(vt, &val_ty, &entry.span);
        }
    }

    /// A map literal.
    fn check_dict(&mut self, expr: &Expr) -> (r: Type)
        requires
            old(self).inv(),
            expr is Dict,
        ensures
            final(self).frame(*old(self)),
            (final(self).st(), r@) == dict_v(old(self).ctx(), old(self).st(), *expr),
        decreases expr, 2int,
    {
        let Expr::Dict { entries, span } = expr else {
            return Type::Error;
        };
        if entries.len() == 0 {
            self.error(CheckError::empty_map_literal(span));
            return Type::Error;
        }
        assert(decreases_to!(expr => entries@[0].key));
        let first_key_ty = self.check_expr(&entries[0].key);
        assert(decreases_to!(expr => entries@[0].value));
        let first_val_ty = self.check_expr(&entries[0].value);
        self.check_entries(entries, 1, &first_key_ty, &first_val_ty);
        Type::Dict(Box::new(first_key_ty), Box::new(first_val_ty))
    }

    /// `Enum::Variant(payload)`.
    fn check_variant_construct(&mut self, expr: &Expr) -> (r: Type)
        requires
            old(self).inv(),
            expr is VariantConstruct,
        ensures
            final(self).frame(*old(self)),
            (final(self).st(), r@) == variant_v(old(self).ctx(), old(self).st(), *expr),
        decreases expr, 2int,
    {
        let Expr::VariantConstruct { enum_name, variant, payload, span } = expr else {
            return Type::Error;
        };
        let v = variant.name.as_str();
        // None: no such enum; Some(None): no such variant; else the payload type.
        let expected: Option<Option<Option<Type>>> = match self.lookup_enum(enum_name.name.as_str()) {
            None => None,
            Some(info) => {
                proof {
                    lemma_variant_index(info.variants@, v@);
                }
                Some(match info.get_variant_payload(v) {
                    None => None,
                    Some(p) => Some(match p {
                        Some(t) => Some(t.deep_copy()),
                        None => None,
                    }),
                })
            },
        };
        match expected {
            None => {
                self.error(CheckError::undefined_type(enum_name.name.as_str(), span));
                Type::Error
            },
            Some(None) => {
                self.error(CheckError::undefined_enum_variant(v, enum_name.name.as_str(), span));
                Type::Error
            },
            Some(Some(ep)) => {
                match payload {
                    Some(payload_expr) => match ep {
                        Some(expected_ty) => {
                            let payload_ty = self.check_expr(payload_expr);
                            if !payload_ty.is_compatible_with(&expected_ty) {
                                let e = expected_ty.to_display_string();
                                let f = payload_ty.to_display_string();
                                self.error(CheckError::type_mismatch(e.as_str(), f.as_str(), span));
                            }
                        },
                        None => {
                            let mut found = variant.name.clone();
                            found.append("(...)");
                            self.error(CheckError::type_mismatch(v, found.as_str(), span));
                        },
                    },
                    None => match ep {
                        Some(expected_ty) => {
                            let d = expected_ty.to_display_string();
                            let mut wanted = variant.name.clone();
                            wanted.append("(");
                            wanted.append(d.as_str());
                            wanted.append(")");
                            self.error(CheckError::type_mismatch(wanted.as_str(), v, span));
                        },
                        None => {},
                    },
                }
                Type::Named(enum_name.name.clone())
            },
        }
    }

    /// `Tool.function(args)`.
    fn check_tool_call(&mut self, expr: &Expr) -> (r: Type)
        requires
            old(self).inv(),
            expr is ToolCall,
        ensures
            final(self).frame(*old(self)),
            (final(self).st(), r@) == tool_call_v(old(self).ctx(), old(self).st(), *expr),
        decreases expr, 2int,
    {
        let Expr::ToolCall { tool, function, args, span } = expr else {
            return Type::Error;
        };
        if self.modular {
            self.check_exprs(args);
            return Type::Error;
        }
        let t = tool.name.as_str();
        let f = function.name.as_str();
        if !self.current_agent_tools.contains(t) || self.scope.lookup_tool(t).is_none() {
            self.error(CheckError::undeclared_tool_use(t, span));
            return Type::Error;
        }
        let sig: Option<(Vec<Type>, Type)> = match self.scope.lookup_tool(t) {
            Some(info) => match info.functions.get(f) {
                Some(fi) => {
                    let ps = copy_param_types(&fi.params);
                    assert(param_types(fi.params@) =~= tool_param_types(fi@));
                    Some((ps, fi.return_ty.deep_copy()))
                },
                None => None,
            },
            None => None,
        };
        match sig {
            None => {
                self.error(CheckError::undefined_tool_function(t, f, span));
                Type::Error
            },
            Some((params, return_ty)) => {
                if args.len() != params.len() {
                    self.error(CheckError::tool_call_arity(t, f, params.len(), args.len(), span));
                    return Type::Error;
                }
                self.check_args(args, &params);
                return_ty
            },
        }
    }

    /// A call by name: a declared function, else a built-in.
    fn check_call(&mut self, expr: &Expr) -> (r: Type)
        requires
            old(self).inv(),
            expr is Call,
        ensures
            final(self).frame(*old(self)),
            (final(self).st(), r@) == call_v(old(self).ctx(), old(self).st(), *expr),
        decreases expr, 2int,
    {
        let Expr::Call { name, args, span } = expr else {
            return Type::Error;
        };
        let n = name.name.as_str();
        let sig: Option<(bool, Vec<Type>, Type, String)> = match self.lookup_function(n) {
            Some(fi) => Some((fi.is_fallible, copy_param_types(&fi.params), fi.return_type.deep_copy(), fi.name.clone())),
            None => None,
        };
        match sig {
            Some((fallible, params, return_ty, declared_name)) => {
                if fallible && !self.modular {
                    self.unhandled(n, span);
                }
                if args.len() != params.len() {
                    let shown: &str = if self.modular {
                        declared_name.as_str()
                    } else {
                        n
                    };
                    self.error(CheckError::wrong_arg_count(shown, params.len(), args.len(), span));
                    return Type::Error;
                }
                self.check_args(args, &params);
                return_ty
            },
            None => {
                if self.symbols.has_builtin(n) {
                    self.check_builtin_call(expr)
                } else {
                    self.error(CheckError::undefined_function(n, span));
                    Type::Error
                }
            },
        }
    }

    /// The error for an argument that should be a map.
    fn not_map(&mut self, t: &Type, span: &Span)
        requires
            old(self).inv(),
        ensures
            final(self).frame(*old(self)),
            final(self).st() == not_map_v(old(self).st(), t@, *span),
    {
        if !t.is_error() {
            let d = t.to_display_string();
            self.error(CheckError::type_mismatch("Map<K, V>", d.as_str(), span));
        }
    }

    /// A call of a built-in function.
    fn check_builtin_call(&mut self, expr: &Expr) -> (r: Type)
        requires
            old(self).inv(),
            expr is Call,
            old(self).ctx().symbols.builtins().contains_key(expr->Call_name.name@),
        ensures
            final(self).frame(*old(self)),
            (final(self).st(), r@) == builtin_v(old(self).ctx(), old(self).st(), *expr),
        decreases expr, 1int,
    {
        let Expr::Call { name, .. } = expr else {
            return Type::Error;
        };
        let kind = builtin_kind_of(name.name.as_str());
        if kind == 0 {
            self.check_len_builtin(expr)
        } else if kind == 1 {
            self.check_push_builtin(expr)
        } else if kind == 2 {
            self.check_str_builtin(expr)
        } else if kind == 3 {
            self.check_map_lookup_builtin(expr)
        } else if kind == 4 {
            self.check_map_set_builtin(expr)
        } else if kind == 5 {
            self.check_map_listing_builtin(expr)
        } else {
            self.check_fixed_builtin(expr)
        }
    }

    /// `len(list_or_map)`.
    fn check_len_builtin(&mut self, expr: &Expr) -> (r: Type)
        requires
            old(self).inv(),
            expr matches Expr::Call { name, .. } && builtin_kind(name.name@) == 0,
        ensures
            final(self).frame(*old(self)),
            (final(self).st(), r@) == builtin_v(old(self).ctx(), old(self).st(), *expr),
        decreases expr, 0int,
    {
        let Expr::Call { name, args, span } = expr else {
            return Type::Error;
        };
        let n = name.name.as_str();
        if args.len() != 1 {
            self.error(CheckError::wrong_arg_count(n, 1, args.len(), span));
            return Type::Error;
        }
        assert(decreases_to!(expr => args@[0]));
        let arg_ty = self.check_expr(&args[0]);
        if arg_ty.list_element().is_none() && arg_ty.map_key_value().is_none() && !arg_ty.is_error() {
            let d = arg_ty.to_display_string();
            let sp = args[0].span();
            self.error(CheckError::type_mismatch("List<T> or Map<K, V>", d.as_str(), &sp));
        }
        Type::Int
    }

    /// `push(list, element)`.
    fn check_push_builtin(&mut self, expr: &Expr) -> (r: Type)
        requires
            old(self).inv(),
            expr matches Expr::Call { name, .. } && builtin_kind(name.name@) == 1,
        ensures
            final(self).frame(*old(self)),
            (final(self).st(), r@) == builtin_v(old(self).ctx(), old(self).st(), *expr),
        decreases expr, 0int,
    {
        let Expr::Call { name, args, span } = expr else {
            return Type::Error;
        };
        let n = name.name.as_str();
        if args.len() != 2 {
            self.error(CheckError::wrong_arg_count(n, 2, args.len(), span));
            return Type::Error;
        }
        assert(decreases_to!(expr => args@[0]));
        let list_ty = self.check_expr(&args[0]);
        assert(decreases_to!(expr => args@[1]));
        let elem_ty = self.check_expr(&args[1]);
        let expected_elem: Option<Type> = match list_ty.list_element() {
            Some(x) => Some(x.deep_copy()),
            None => None,
        };
        match expected_elem {
            Some(x) => {
                let sp = args[1].span();
                self.expect(&x, &elem_ty, &sp);
                list_ty
            },
            None => {
                if !list_ty.is_error() {
                    let d = list_ty.to_display_string();
                    let sp = args[0].span();
                    self.error(CheckError::type_mismatch("List<T>", d.as_str(), &sp));
                }
                Type::Error
            },
        }
    }

    /// `str(value)`.
    fn check_str_builtin(&mut self, expr: &Expr) -> (r: Type)
        requires
            old(self).inv(),
            expr matches Expr::Call { name, .. } && builtin_kind(name.name@) == 2,
        ensures
            final(self).frame(*old(self)),
            (final(self).st(), r@) == builtin_v(old(self).ctx(), old(self).st(), *expr),
        decreases expr, 0int,
    {
        let Expr::Call { name, args, span } = expr else {
            return Type::Error;
        };
        let n = name.name.as_str();
        if args.len() != 1 {
            self.error(CheckError::wrong_arg_count(n, 1, args.len(), span));
            return Type::Error;
        }
        assert(decreases_to!(expr => args@[0]));
        let _ = self.check_expr(&args[0]);
        Type::String
    }

    /// `map_get`, `map_delete` and `map_has`.
    fn check_map_lookup_builtin(&mut self, expr: &Expr) -> (r: Type)
        requires
            old(self).inv(),
            expr matches Expr::Call { name, .. } && builtin_kind(name.name@) == 3,
        ensures
            final(self).frame(*old(self)),
            (final(self).st(), r@) == builtin_v(old(self).ctx(), old(self).st(), *expr),
        decreases expr, 0int,
    {
        let Expr::Call { name, args, span } = expr else {
            return Type::Error;
        };
        let n = name.name.as_str();
        if args.len() != 2 {
            self.error(CheckError::wrong_arg_count(n, 2, args.len(), span));
            return Type::Error;
        }
        assert(decreases_to!(expr => args@[0]));
        let map_ty = self.check_expr(&args[0]);
        assert(decreases_to!(expr => args@[1]));
        let key_ty = self.check_expr(&args[1]);
        let kv: Option<(Type, Type)> = match map_ty.map_key_value() {
            Some((k, v)) => Some((k.deep_copy(), v.deep_copy())),
            None => None,
        };
        let is_get = crate::text::str_eq(n, "map_get");
        let is_delete = crate::text::str_eq(n, "map_delete");
        match kv {
            Some((k, v)) => {
                let sp = args[1].span();
                self.expect(&k, &key_ty, &sp);
                if is_get {
                    Type::Option(Box::new(v))
                } else if is_delete {
                    Type::Unit
                } else {
                    Type::Bool
                }
            },
            None => {
                let sp = args[0].span();
                self.not_map(&map_ty, &sp);
                if is_get {
                    Type::Error
                } else if is_delete {
                    Type::Unit
                } else {
                    Type::Bool
                }
            },
        }
    }

    /// `map_set(map, key, value)`.
    fn check_map_set_builtin(&mut self, expr: &Expr) -> (r: Type)
        requires
            old(self).inv(),
            expr matches Expr::Call { name, .. } && builtin_kind(name.name@) == 4,
        ensures
            final(self).frame(*old(self)),
            (final(self).st(), r@) == builtin_v(old(self).ctx(), old(self).st(), *expr),
        decreases expr, 0int,
    {
        let Expr::Call { name, args, span } = expr else {
            return Type::Error;
        };
        let n = name.name.as_str();
        if args.len() != 3 {
            self.error(CheckError::wrong_arg_count(n, 3, args.len(), span));
            return Type::Error;
        }
        assert(decreases_to!(expr => args@[0]));
        let map_ty = self.check_expr(&args[0]);
        assert(decreases_to!(expr => args@[1]));
        let key_ty = self.check_expr(&args[1]);
        assert(decreases_to!(expr => args@[2]));
        let value_ty = self.check_expr(&args[2]);
        let kv: Option<(Type, Type)> = match map_ty.map_key_value() {
            Some((k, v)) => Some((k.deep_copy(), v.deep_copy())),
            None => None,
        };
        match kv {
            Some((k, v)) => {
                let sp1 = args[1].span();
                self.expect(&k, &key_ty, &sp1);
                let sp2 = args[2].span();
                self.expect(&v, &value_ty, &sp2);
            },
            None => {
                let sp = args[0].span();
                self.not_map(&map_ty, &sp);
            },
        }
        Type::Unit
    }

    /// `map_keys(map)` and `map_values(map)`.
    fn check_map_listing_builtin(&mut self, expr: &Expr) -> (r: Type)
        requires
            old(self).inv(),
            expr matches Expr::Call { name, .. } && builtin_kind(name.name@) == 5,
        ensures
            final(self).frame(*old(self)),
            (final(self).st(), r@) == builtin_v(old(self).ctx(), old(self).st(), *expr),
        decreases expr, 0int,
    {
        let Expr::Call { name, args, span } = expr else {
            return Type::Error;
        };
        let n = name.name.as_str();
        if args.len() != 1 {
            self.error(CheckError::wrong_arg_count(n, 1, args.len(), span));
            return Type::Error;
        }
        assert(decreases_to!(expr => args@[0]));
        let map_ty = self.check_expr(&args[0]);
        let kv: Option<(Type, Type)> = match map_ty.map_key_value() {
            Some((k, v)) => Some((k.deep_copy(), v.deep_copy())),
            None => None,
        };
        match kv {
            Some((k, v)) => {
                if crate::text::str_eq(n, "map_keys") {
                    Type::List(Box::new(k))
                } else {
                    Type::List(Box::new(v))
                }
            },
            None => {
                let sp = args[0].span();
                self.not_map(&map_ty, &sp);
                Type::Error
            },
        }
    }

    /// A built-in with a fixed signature (or checked without one).
    fn check_fixed_builtin(&mut self, expr: &Expr) -> (r: Type)
        requires
            old(self).inv(),
            expr matches Expr::Call { name, .. } && builtin_kind(name.name@) == 6,
            old(self).ctx().symbols.builtins().contains_key(expr->Call_name.name@),
        ensures
            final(self).frame(*old(self)),
            (final(self).st(), r@) == builtin_v(old(self).ctx(), old(self).st(), *expr),
        decreases expr, 0int,
    {
        let Expr::Call { name, args, span } = expr else {
            return Type::Error;
        };
        let n = name.name.as_str();
        let sig: (Option<Vec<Type>>, Type) = match self.symbols.get_builtin(n) {
            Some(b) => (
                match &b.params {
                    Some(ps) => Some(copy_type_list(ps)),
                    None => None,
                },
                b.return_type.deep_copy(),
            ),
            None => (None, Type::Error),
        };
        let (params, return_ty) = sig;
        match params {
            Some(ps) => {
                if args.len() != ps.len() {
                    self.error(CheckError::wrong_arg_count(n, ps.len(), args.len(), span));
                    return Type::Error;
                }
                self.check_args(args, &ps);
                return_ty
            },
            None => return_ty,
        }
    }

    /// Record a `NonBoolCondition` unless the condition type is compatible with `Bool`.
    fn check_condition(&mut self, t: &Type, span: &Span)
        requires
            old(self).inv(),
        ensures
            final(self).frame(*old(self)),
            final(self).st() == cond_v(old(self).st(), t@, *span),
    {
        if !t.is_compatible_with(&Type::Bool) {
            let d = t.to_display_string();
            self.error(CheckError::non_bool_condition(d.as_str(), span));
        }
    }

    /// Check the statements of a block in order.
    fn check_block(&mut self, block: &Block)
        requires
            old(self).inv(),
        ensures
            final(self).frame(*old(self)),
            final(self).st() == block_v(old(self).ctx(), old(self).st(), block.stmts@),
        decreases block, 1int,
    {
        self.check_stmts(&block.stmts);
    }

    /// Check statements in order.
    fn check_stmts(&mut self, stmts: &Vec<Stmt>)
        requires
            old(self).inv(),
        ensures
            final(self).frame(*old(self)),
            final(self).st() == block_v(old(self).ctx(), old(self).st(), stmts@),
        decreases stmts, 0int,
    {
        let ghost c0 = self.ctx();
        let ghost s0 = self.st();
        let n = stmts.len();
        assert(stmts@.subrange(0, 0) =~= Seq::<Stmt>::empty());
        for i in 0..n
            invariant
                n == stmts@.len(),
                self.frame(*old(self)),
                c0 == old(self).ctx(),
                self.st() == block_v(c0, s0, stmts@.subrange(0, i as int)),
        {
            assert(stmts@.subrange(0, i + 1).drop_last() =~= stmts@.subrange(0, i as int));
            assert(decreases_to!(stmts => stmts@[i as int]));
            self.check_stmt(&stmts[i]);
        }
        assert(stmts@.subrange(0, n as int) =~= stmts@);
    }

    /// Check a block in its own scope.
    fn check_scoped_block(&mut self, block: &Block)
        requires
            old(self).inv(),
        ensures
            final(self).frame(*old(self)),
            final(self).st() == scoped_block_v(old(self).ctx(), old(self).st(), *block),
        decreases block, 2int,
    {
        self.push_scope();
        self.check_block(block);
        self.pop_scope();
    }

    /// Check a loop body: in its own scope, inside a loop.
    fn check_loop_body(&mut self, block: &Block)
        requires
            old(self).inv(),
        ensures
            final(self).frame(*old(self)),
            final(self).st() == loop_body_v(old(self).ctx(), old(self).st(), *block),
        decreases block, 2int,
    {
        let was_in_loop = self.in_loop;
        self.push_scope();
        self.in_loop = true;
        self.check_block(block);
        self.pop_scope();
        self.in_loop = was_in_loop;
    }

    /// Bind each name to the type at the same position.
    fn bind_all(&mut self, names: &Vec<crate::ast::Ident>, tys: &Vec<Type>)
        requires
            old(self).inv(),
            names@.len() == tys@.len(),
        ensures
            final(self).frame(*old(self)),
            final(self).st() == bind_all_v(old(self).st(), names@, types_of(tys@)),
    {
        let ghost s0 = self.st();
        let n = names.len();
        assert(names@.subrange(0, 0) =~= Seq::<crate::ast::Ident>::empty());
        for i in 0..n
            invariant
                n == names@.len(),
                n == tys@.len(),
                self.frame(*old(self)),
                self.st() == bind_all_v(s0, names@.subrange(0, i as int), types_of(tys@)),
        {
            assert(names@.subrange(0, i + 1).drop_last() =~= names@.subrange(0, i as int));
            self.define_var(names[i].name.as_str(), tys[i].deep_copy());
        }
        assert(names@.subrange(0, n as int) =~= names@);
    }

    /// Bind each name to the error type.
    fn bind_all_error(&mut self, names: &Vec<crate::ast::Ident>)
        requires
            old(self).inv(),
        ensures
            final(self).frame(*old(self)),
            final(self).st() == bind_all_v(old(self).st(), names@, Seq::new(names@.len(), |i: int| TypeV::Error)),
    {
        let mut tys: Vec<Type> = Vec::new();
        let n = names.len();
        for i in 0..n
            invariant
                n == names@.len(),
                tys@.len() == i,
                forall|k: int| 0 <= k < i ==> #[trigger] tys@[k]@ == TypeV::Error,
        {
            tys.push(Type::Error);
        }
        assert(types_of(tys@) =~= Seq::new(names@.len(), |i: int| TypeV::Error));
        self.bind_all(names, &tys);
    }

    /// `let (a, b, ...) = value;`
    fn check_let_tuple(&mut self, stmt: &Stmt)
        requires
            old(self).inv(),
            stmt is LetTuple,
        ensures
            final(self).frame(*old(self)),
            final(self).st() == stmt_v(old(self).ctx(), old(self).st(), *stmt),
        decreases stmt, 1int,
    {
        let Stmt::LetTuple { names, ty, value, span } = stmt else {
            return;
        };
        let value_ty = self.check_expr(value);
        match &value_ty {
            Type::Tuple(elems) => {
                proof {
                    lemma_types_of(elems@);
                }
                if names.len() != elems.len() {
                    self.error(CheckError::tuple_arity_mismatch(names.len(), elems.len(), span));
                } else {
                    self.bind_all(names, elems);
                }
            },
            Type::Error => {
                self.bind_all_error(names);
            },
            _ => {
                let mut expected = String::from_str("tuple with ");
                let count = decimal_string(names.len());
                expected.append(count.as_str());
                expected.append(" elements");
                let d = value_ty.to_display_string();
                self.error(CheckError::type_mismatch(expected.as_str(), d.as_str(), span));
                self.bind_all_error(names);
            },
        }
        if let Some(type_expr) = ty {
            let declared_ty = resolve_type(type_expr);
            self.expect(&declared_ty, &value_ty, span);
        }
    }

    /// `for pattern in iter { body }`.
    fn check_for(&mut self, stmt: &Stmt)
        requires
            old(self).inv(),
            stmt is For,
        ensures
            final(self).frame(*old(self)),
            final(self).st() == stmt_v(old(self).ctx(), old(self).st(), *stmt),
        decreases stmt, 1int,
    {
        let Stmt::For { pattern, iter, body, span } = stmt else {
            return;
        };
        let iter_ty = self.check_expr(iter);
        let elem_ty = match iter_ty.list_element() {
            Some(elem) => elem.deep_copy(),
            None => match iter_ty.map_key_value() {
                Some((k, v)) => {
                    let pair = vec![k.deep_copy(), v.deep_copy()];
                    proof {
                        lemma_types_of(pair@);
                        assert(types_of(pair@) =~= seq![k@, v@]);
                    }
                    Type::Tuple(pair)
                },
                None => {
                    if !iter_ty.is_error() {
                        let d = iter_ty.to_display_string();
                        self.error(CheckError::not_iterable(d.as_str(), span));
                    }
                    Type::Error
                },
            },
        };
        let was_in_loop = self.in_loop;
        self.in_loop = true;
        self.push_scope();
        self.check_pattern(pattern, &elem_ty);
        self.check_block(body);
        self.pop_scope();
        self.in_loop = was_in_loop;
    }

    /// Check a statement.
    fn check_stmt(&mut self, stmt: &Stmt)
        requires
            old(self).inv(),
        ensures
            final(self).frame(*old(self)),
            final(self).st() == stmt_v(old(self).ctx(), old(self).st(), *stmt),
        decreases stmt, 2int,
    {
        match stmt {
            Stmt::Let { name, ty, value, .. } => {
                let value_ty = self.check_expr(value);
                match ty {
                    Some(type_expr) => {
                        let declared_ty = resolve_type(type_expr);
                        let sp = value.span();
                        self.expect(&declared_ty, &value_ty, &sp);
                        self.define_var(name.name.as_str(), declared_ty);
                    },
                    None => {
                        self.define_var(name.name.as_str(), value_ty);
                    },
                }
            },
            Stmt::Assign { name, value, span } => {
                let expected = self.lookup_var(name.name.as_str(), &name.span);
                let actual = self.check_expr(value);
                self.expect(&expected, &actual, span);
            },
            Stmt::Return { value, span } => {
                if !self.in_function {
                    self.error(CheckError::return_outside_function(span));
                    return;
                }
                let return_ty = match value {
                    Some(e) => self.check_expr(e),
                    None => Type::Unit,
                };
                let expected: Option<Type> = match &self.expected_return {
                    Some(t) => Some(t.deep_copy()),
                    None => None,
                };
                if let Some(t) = expected {
                    self.expect(&t, &return_ty, span);
                }
            },
            Stmt::If { condition, then_block, else_block, span } => {
                let cond_ty = self.check_expr(condition);
                self.check_condition(&cond_ty, span);
                self.check_scoped_block(then_block);
                match else_block {
                    None => {},
                    Some(ElseBranch::Block(block)) => {
                        self.check_scoped_block(block);
                    },
                    Some(ElseBranch::ElseIf(inner)) => {
                        self.check_stmt(inner);
                    },
                }
            },
            Stmt::For { .. } => {
                self.check_for(stmt);
            },
            Stmt::While { condition, body, span } => {
                let cond_ty = self.check_expr(condition);
                self.check_condition(&cond_ty, span);
                self.check_loop_body(body);
            },
            Stmt::Loop { body, .. } => {
                self.check_loop_body(body);
            },
            Stmt::Break { span } => {
                if !self.in_loop {
                    self.error(CheckError::break_outside_loop(span));
                }
            },
            Stmt::Expr { expr, .. } => {
                let _ = self.check_expr(expr);
            },
            Stmt::LetTuple { .. } => {
                self.check_let_tuple(stmt);
            },
        }
    }

    /// Check an agent's handlers, then report the beliefs no handler read.
    fn check_agent(&mut self, agent: &AgentDecl)
        requires
            old(self).inv(),
        ensures
            final(self).inv(),
            final(self).module() == old(self).module(),
            final(self).ctx() == after_agent(old(self).ctx()),
            final(self).st() == agent_v(old(self).ctx(), old(self).st(), *agent),
    {
        let ghost c0 = self.ctx();
        let ghost s0 = self.st();
        self.current_agent = Some(agent.name.name.clone());
        self.used_beliefs.clear();
        self.receives_type = match &agent.receives {
            Some(t) => Some(resolve_type(t)),
            None => None,
        };
        self.agent_has_error_handler = any_error_handler(&agent.handlers);
        let ghost c1 = self.ctx();
        let ghost s1 = self.st();
        assert(c1 == agent_ctx(c0, *agent));
        assert(s1 == St { used: Set::empty(), ..s0 });
        let n = agent.handlers.len();
        assert(agent.handlers@.subrange(0, 0) =~= Seq::<HandlerDecl>::empty());
        for i in 0..n
            invariant
                n == agent.handlers@.len(),
                self.inv(),
                self.ctx() == c1,
                self.module() == old(self).module(),
                self.st() == handlers_v(c1, s1, agent.handlers@.subrange(0, i as int)),
        {
            assert(agent.handlers@.subrange(0, i + 1).drop_last() =~= agent.handlers@.subrange(0, i as int));
            let handler = &agent.handlers[i];
            self.push_scope();
            match &handler.event {
                EventKind::Message { param_name, param_ty } => {
                    let ty = resolve_type(param_ty);
                    self.define_var(param_name.name.as_str(), ty);
                },
                EventKind::Error { param_name } => {
                    self.define_var(param_name.name.as_str(), Type::Named(String::from_str("Error")));
                },
                _ => {},
            }
            self.check_block(&handler.body);
            self.pop_scope();
        }
        assert(agent.handlers@.subrange(0, n as int) =~= agent.handlers@);
        let ghost s2 = self.st();
        let m = agent.beliefs.len();
        assert(agent.beliefs@.subrange(0, 0) =~= Seq::<crate::ast::BeliefDecl>::empty());
        for i in 0..m
            invariant
                m == agent.beliefs@.len(),
                self.inv(),
                self.ctx() == c1,
                self.module() == old(self).module(),
                self.st() == unused_v(s2, agent.beliefs@.subrange(0, i as int)),
        {
            assert(agent.beliefs@.subrange(0, i + 1).drop_last() =~= agent.beliefs@.subrange(0, i as int));
            let belief = &agent.beliefs[i];
            if !self.used_beliefs.contains(belief.name.name.as_str()) {
                self.error(CheckError::unused_belief(belief.name.name.as_str(), &belief.span));
            }
        }
        assert(agent.beliefs@.subrange(0, m as int) =~= agent.beliefs@);
        self.current_agent = None;
        self.receives_type = None;
        self.agent_has_error_handler = false;
    }

    /// Check a function's body in a scope binding its parameters.
    fn check_function(&mut self, func: &FnDecl)
        requires
            old(self).inv(),
        ensures
            final(self).inv(),
            final(self).module() == old(self).module(),
            final(self).ctx() == after_function(old(self).ctx()),
            final(self).st() == function_v(old(self).ctx(), old(self).st(), *func),
    {
        let ghost c0 = self.ctx();
        self.in_function = true;
        self.expected_return = Some(resolve_type(&func.return_ty));
        self.in_fallible_context = func.is_fallible;
        let ghost c1 = self.ctx();
        assert(c1 == fn_ctx(c0, *func));
        self.push_scope();
        let ghost s1 = self.st();
        let n = func.params.len();
        assert(func.params@.subrange(0, 0) =~= Seq::<crate::ast::Param>::empty());
        for i in 0..n
            invariant
                n == func.params@.len(),
                self.inv(),
                self.ctx() == c1,
                self.module() == old(self).module(),
                self.st() == params_v(s1, func.params@.subrange(0, i as int)),
        {
            assert(func.params@.subrange(0, i + 1).drop_last() =~= func.params@.subrange(0, i as int));
            let param = &func.params[i];
            let ty = resolve_type(&param.ty);
            self.define_var(param.name.name.as_str(), ty);
        }
        assert(func.params@.subrange(0, n as int) =~= func.params@);
        self.check_block(&func.body);
        self.pop_scope();
        self.in_function = false;
        self.expected_return = None;
        self.in_fallible_context = false;
    }

    /// Check a constant declaration.
    fn check_const(&mut self, const_decl: &ConstDecl)
        requires
            old(self).inv(),
        ensures
            final(self).frame(*old(self)),
            final(self).st() == const_v(old(self).ctx(), old(self).st(), *const_decl),
    {
        let declared_ty = resolve_type(&const_decl.ty);
        let value_ty = self.check_expr(&const_decl.value);
        let sp = const_decl.value.span();
        self.expect(&declared_ty, &value_ty, &sp);
        if !is_const_expr(&const_decl.value) {
            self.error(CheckError::type_mismatch("constant expression", "non-constant expression", &sp));
        }
    }

    /// Validate the entry agent named by `run`, if any.
    fn validate_entry_agent(&mut self, program: &Program)
        requires
            old(self).inv(),
        ensures
            final(self).frame(*old(self)),
            final(self).st() == entry_v(old(self).ctx(), old(self).st(), *program),
    {
        let Some(run_agent) = &program.run_agent else {
            return;
        };
        let entry_name = run_agent.name.as_str();
        // None: no such agent; else (has beliefs, has a start handler).
        let facts: Option<(bool, bool)> = match self.symbols.get_agent(entry_name) {
            Some(agent) => Some((agent.beliefs.len() > 0, agent.has_start_handler)),
            None => None,
        };
        match facts {
            None => {
                self.error(CheckError::undefined_agent(entry_name, &run_agent.span));
            },
            Some((has_beliefs, has_start_handler)) => {
                if has_beliefs {
                    self.error(CheckError::entry_agent_has_beliefs(entry_name, &run_agent.span));
                }
                if !has_start_handler {
                    self.error(CheckError::entry_agent_no_start(entry_name, &run_agent.span));
                }
            },
        }
    }

    /// The second pass: check agents, functions and constants, then the entry agent.
    fn check_bodies(&mut self, program: &Program)
        requires
            old(self).inv(),
            old(self).ctx().current_agent is None,
            old(self).ctx().receives is None,
            !old(self).ctx().agent_has_error_handler,
            !old(self).ctx().in_function,
            old(self).ctx().expected_return is None,
            !old(self).ctx().in_fallible,
        ensures
            final(self).frame(*old(self)),
            final(self).st() == bodies_v(old(self).ctx(), old(self).st(), *program),
    {
        let ghost c0 = self.ctx();
        self.check_agents_and_functions(program);
        let ghost s2 = self.st();
        let n = program.consts.len();
        assert(program.consts@.subrange(0, 0) =~= Seq::<ConstDecl>::empty());
        for i in 0..n
            invariant
                n == program.consts@.len(),
                self.frame(*old(self)),
                c0 == old(self).ctx(),
                self.st() == consts_v(c0, s2, program.consts@.subrange(0, i as int)),
        {
            assert(program.consts@.subrange(0, i + 1).drop_last() =~= program.consts@.subrange(0, i as int));
            self.check_const(&program.consts[i]);
        }
        assert(program.consts@.subrange(0, n as int) =~= program.consts@);
        self.validate_entry_agent(program);
    }

    /// Check the agents, then the functions, of a program.
    fn check_agents_and_functions(&mut self, program: &Program)
        requires
            old(self).inv(),
            old(self).ctx().current_agent is None,
            old(self).ctx().receives is None,
            !old(self).ctx().agent_has_error_handler,
            !old(self).ctx().in_function,
            old(self).ctx().expected_return is None,
            !old(self).ctx().in_fallible,
        ensures
            final(self).frame(*old(self)),
            final(self).st() == module_bodies_v(old(self).ctx(), old(self).st(), *program),
    {
        let ghost c0 = self.ctx();
        let ghost s0 = self.st();
        let n = program.agents.len();
        assert(program.agents@.subrange(0, 0) =~= Seq::<AgentDecl>::empty());
        for i in 0..n
            invariant
                n == program.agents@.len(),
                self.frame(*old(self)),
                c0 == old(self).ctx(),
                c0.current_agent is None,
                c0.receives is None,
                !c0.agent_has_error_handler,
                self.st() == agents_v(c0, s0, program.agents@.subrange(0, i as int)),
        {
            assert(program.agents@.subrange(0, i + 1).drop_last() =~= program.agents@.subrange(0, i as int));
            self.check_agent(&program.agents[i]);
            assert(after_agent(c0) == c0);
        }
        assert(program.agents@.subrange(0, n as int) =~= program.agents@);
        let ghost s1 = self.st();
        let n = program.functions.len();
        assert(program.functions@.subrange(0, 0) =~= Seq::<FnDecl>::empty());
        for i in 0..n
            invariant
                n == program.functions@.len(),
                self.frame(*old(self)),
                c0 == old(self).ctx(),
                !c0.in_function,
                c0.expected_return is None,
                !c0.in_fallible,
                self.st() == functions_v(c0, s1, program.functions@.subrange(0, i as int)),
        {
            assert(program.functions@.subrange(0, i + 1).drop_last() =~= program.functions@.subrange(0, i as int));
            self.check_function(&program.functions[i]);
            assert(after_function(c0) == c0);
        }
        assert(program.functions@.subrange(0, n as int) =~= program.functions@);
    }

    /// Check one module of a tree: its agents and functions, against the
    /// shared table `symbols`, with the names the module imports and the emit
    /// types recorded by the modules checked before. Gives back the table,
    /// the errors, those emit types, and the emit types this module recorded.
    pub(crate) fn check_tree_module(
        symbols: SymbolTable,
        module: Vec<String>,
        imports: NameMap<(Vec<String>, String)>,
        emits: NameMap<Type>,
        program: &Program,
    ) -> (r: (SymbolTable, Vec<CheckError>, NameMap<Type>, NameMap<Type>))
        requires
            symbols.wf(),
            imports.wf(),
            emits.wf(),
        ensures
            r.0 == symbols,
            r.2.wf(),
            r.2@.map_values(|t: Type| t@) == emits@.map_values(|t: Type| t@),
            r.3.wf(),
            errs_view(r.1@) == module_bodies_v(
                tree_module_ctx(symbols, names_view(module@), imports_view(imports@), emits@.map_values(|t: Type| t@)),
                initial_st(),
                *program,
            ).errors,
            r.3@.map_values(|t: Type| t@) == module_bodies_v(
                tree_module_ctx(symbols, names_view(module@), imports_view(imports@), emits@.map_values(|t: Type| t@)),
                initial_st(),
                *program,
            ).emits,
    {
        let mut scopes: Vec<Scope> = Vec::new();
        let sc = Scope::new();
        assert(vars_view(sc) =~= Map::<Seq<char>, TypeV>::empty());
        scopes.push(sc);
        let mut checker = Checker {
            symbols,
            scopes,
            errors: Vec::new(),
            current_agent: None,
            in_function: false,
            expected_return: None,
            used_beliefs: NameSet::new(),
            current_module: module,
            in_loop: false,
            receives_type: None,
            in_fallible_context: false,
            agent_has_error_handler: false,
            in_error_handling: false,
            current_agent_tools: NameSet::new(),
            scope: Scope::with_builtins(),
            emitted: NameMap::new(),
            modular: true,
            imports,
            frozen_emits: emits,
        };
        assert(checker.st().errors =~= Seq::<ErrV>::empty());
        assert(checker.st().scopes =~= seq![Map::<Seq<char>, TypeV>::empty()]);
        assert(checker.st().emits =~= Map::<Seq<char>, TypeV>::empty());
        assert(checker.ctx().agent_tools =~= Set::<Seq<char>>::empty());
        assert(checker.ctx() == tree_module_ctx(
            symbols,
            names_view(module@),
            imports_view(imports@),
            emits@.map_values(|t: Type| t@),
        ));
        assert(checker.st() == initial_st());
        checker.check_agents_and_functions(program);
        let Checker { symbols, errors, frozen_emits, emitted, .. } = checker;
        (symbols, errors, frozen_emits, emitted)
    }

    /// The agent information of a declaration.
    pub(crate) fn collect_agent(agent: &AgentDecl, module: &Vec<String>) -> (r: AgentInfo)
        ensures
            agent_models(r, *agent, module@),
    {
        let mut beliefs: NameMap<Type> = NameMap::new();
        let n = agent.beliefs.len();
        assert(agent.beliefs@.subrange(0, 0) =~= Seq::<crate::ast::BeliefDecl>::empty());
        assert(beliefs@.map_values(|t: Type| t@) =~= Map::<Seq<char>, TypeV>::empty());
        for i in 0..n
            invariant
                n == agent.beliefs@.len(),
                beliefs.wf(),
                beliefs@.map_values(|t: Type| t@) == beliefs_map(agent.beliefs@.subrange(0, i as int)),
        {
            assert(agent.beliefs@.subrange(0, i + 1).drop_last() =~= agent.beliefs@.subrange(0, i as int));
            let belief = &agent.beliefs[i];
            let ghost m0 = beliefs@;
            let ty = resolve_type(&belief.ty);
            let ghost tv = ty@;
            beliefs.insert(belief.name.name.clone(), ty);
            assert(beliefs@.map_values(|t: Type| t@) =~= m0.map_values(|t: Type| t@).insert(belief.name.name@, tv));
        }
        assert(agent.beliefs@.subrange(0, n as int) =~= agent.beliefs@);
        let message_type = message_type_of(&agent.handlers);
        AgentInfo {
            name: agent.name.name.clone(),
            beliefs,
            message_type,
            emit_type: None,
            has_start_handler: any_start_handler(&agent.handlers),
            is_pub: agent.is_pub,
            module: copy_strings(module),
        }
    }

    /// The function information of a declaration.
    pub(crate) fn collect_function(func: &FnDecl, module: &Vec<String>) -> (r: FunctionInfo)
        ensures
            function_models(r, *func, module@),
    {
        let mut params: Vec<(String, Type)> = Vec::new();
        let n = func.params.len();
        for i in 0..n
            invariant
                n == func.params@.len(),
                params@.len() == i,
                forall|k: int|
                    0 <= k < i ==> (#[trigger] params@[k]).0@ == func.params@[k].name.name@ && params@[k].1@
                        == declared(func.params@[k].ty),
        {
            let p = &func.params[i];
            params.push((p.name.name.clone(), resolve_type(&p.ty)));
        }
        FunctionInfo {
            name: func.name.name.clone(),
            type_params: Vec::new(),
            params,
            return_type: resolve_type(&func.return_ty),
            is_pub: func.is_pub,
            module: copy_strings(module),
            is_fallible: func.is_fallible,
        }
    }

    /// The record information of a declaration.
    pub(crate) fn collect_record(record: &RecordDecl, module: &Vec<String>) -> (r: RecordInfo)
        ensures
            record_models(r, *record, module@),
    {
        let mut fields: NameMap<Type> = NameMap::new();
        let mut field_order: Vec<String> = Vec::new();
        let n = record.fields.len();
        assert(record.fields@.subrange(0, 0) =~= Seq::<crate::ast::RecordField>::empty());
        assert(fields@.map_values(|t: Type| t@) =~= Map::<Seq<char>, TypeV>::empty());
        for i in 0..n
            invariant
                n == record.fields@.len(),
                fields.wf(),
                fields@.map_values(|t: Type| t@) == fields_map(record.fields@.subrange(0, i as int)),
                field_order@.len() == i,
                forall|k: int| 0 <= k < i ==> (#[trigger] field_order@[k])@ == record.fields@[k].name.name@,
        {
            assert(record.fields@.subrange(0, i + 1).drop_last() =~= record.fields@.subrange(0, i as int));
            let field = &record.fields[i];
            let ghost m0 = fields@;
            let ty = resolve_type(&field.ty);
            let ghost tv = ty@;
            fields.insert(field.name.name.clone(), ty);
            assert(fields@.map_values(|t: Type| t@) =~= m0.map_values(|t: Type| t@).insert(field.name.name@, tv));
            field_order.push(field.name.name.clone());
        }
        assert(record.fields@.subrange(0, n as int) =~= record.fields@);
        assert(names_view(field_order@) =~= Seq::new(record.fields@.len(), |i: int| record.fields@[i].name.name@));
        RecordInfo {
            name: record.name.name.clone(),
            type_params: Vec::new(),
            fields,
            field_order,
            is_pub: record.is_pub,
            module: copy_strings(module),
        }
    }

    /// The enum information of a declaration.
    pub(crate) fn collect_enum(decl: &EnumDecl, module: &Vec<String>) -> (r: EnumInfo)
        ensures
            enum_models(r, *decl, module@),
    {
        let mut variants: Vec<(String, Option<Type>)> = Vec::new();
        let n = decl.variants.len();
        for i in 0..n
            invariant
                n == decl.variants@.len(),
                variants@.len() == i,
                forall|k: int|
                    0 <= k < i ==> (#[trigger] variants@[k]).0@ == decl.variants@[k].name.name@ && payload_view(
                        variants@[k].1,
                    ) == (match decl.variants@[k].payload {
                        Some(t) => Some(declared(t)),
                        None => None,
                    }),
        {
            let v = &decl.variants[i];
            let payload = match &v.payload {
                Some(t) => Some(resolve_type(t)),
                None => None,
            };
            variants.push((v.name.name.clone(), payload));
        }
        let r = EnumInfo {
            name: decl.name.name.clone(),
            type_params: Vec::new(),
            variants,
            is_pub: decl.is_pub,
            module: copy_strings(module),
        };
        assert(r@.type_params =~= Seq::<Seq<char>>::empty());
        assert(r@.variants =~= Seq::new(
            decl.variants@.len(),
            |i: int|
                (
                    decl.variants@[i].name.name@,
                    match decl.variants@[i].payload {
                        Some(t) => Some(declared(t)),
                        None => None,
                    },
                ),
        ));
        r
    }

    /// The constant information of a declaration.
    pub(crate) fn collect_const(decl: &ConstDecl, module: &Vec<String>) -> (r: ConstInfo)
        ensures
            const_models(r, *decl, module@),
    {
        ConstInfo {
            name: decl.name.name.clone(),
            ty: resolve_type(&decl.ty),
            is_pub: decl.is_pub,
            module: copy_strings(module),
        }
    }

    /// Declare the agents of a program: the first declaration of each name;
    /// a later one is a `DuplicateDefinition`.
    fn collect_agents(&mut self, program: &Program)
        requires
            old(self).inv(),
            old(self).ctx().symbols.agents().dom().len() == 0,
            old(self).ctx().symbols.agents().dom().finite(),
        ensures
            final(self).inv(),
            final(self).module() == old(self).module(),
            final(self).ctx() == (Ctx { symbols: final(self).ctx().symbols, ..old(self).ctx() }),
            final(self).st() == (St {
                errors: old(self).st().errors + declare_names(Set::empty(), agent_items(program.agents@)).1,
                ..old(self).st()
            }),
            final(self).ctx().symbols.agents().dom() == declare_names(Set::empty(), agent_items(program.agents@)).0,
            forall|k: Seq<char>| #[trigger] final(self).ctx().symbols.agents().contains_key(k) ==> agent_models(
                final(self).ctx().symbols.agents()[k],
                program.agents@[first_decl(agent_items(program.agents@), k)],
                old(self).module(),
            ),
            final(self).ctx().symbols.supervisors() == old(self).ctx().symbols.supervisors(),
            final(self).ctx().symbols.protocols() == old(self).ctx().symbols.protocols(),
            final(self).ctx().symbols.effect_handlers() == old(self).ctx().symbols.effect_handlers(),
            final(self).ctx().symbols.functions() == old(self).ctx().symbols.functions(),
            final(self).ctx().symbols.records() == old(self).ctx().symbols.records(),
            final(self).ctx().symbols.enums() == old(self).ctx().symbols.enums(),
            final(self).ctx().symbols.consts() == old(self).ctx().symbols.consts(),
            final(self).ctx().symbols.builtins() == old(self).ctx().symbols.builtins(),
    {
        let ghost c0 = self.ctx();
        let ghost s0 = self.st();
        let ghost items = agent_items(program.agents@);
        let n = program.agents.len();
        assert(items.subrange(0, 0) =~= Seq::<(Seq<char>, Span)>::empty());
        assert(s0.errors + Seq::<ErrV>::empty() =~= s0.errors);
        assert(c0.symbols.agents().dom() =~= Set::<Seq<char>>::empty());
        for i in 0..n
            invariant
                n == program.agents@.len(),
                items == agent_items(program.agents@),
                self.inv(),
                self.module() == old(self).module(),
                self.ctx() == (Ctx { symbols: self.ctx().symbols, ..c0 }),
                self.st() == (St { errors: s0.errors + declare_names(Set::empty(), items.subrange(0, i as int)).1, ..s0 }),
                self.ctx().symbols.agents().dom() == declare_names(Set::empty(), items.subrange(0, i as int)).0,
                forall|k: Seq<char>| #[trigger] self.ctx().symbols.agents().contains_key(k) ==> agent_models(
                    self.ctx().symbols.agents()[k],
                    program.agents@[first_decl(items.subrange(0, i as int), k)],
                    old(self).module(),
                ),
                self.ctx().symbols.supervisors() == c0.symbols.supervisors(),
                self.ctx().symbols.protocols() == c0.symbols.protocols(),
                self.ctx().symbols.effect_handlers() == c0.symbols.effect_handlers(),
                self.ctx().symbols.functions() == c0.symbols.functions(),
                self.ctx().symbols.records() == c0.symbols.records(),
                self.ctx().symbols.enums() == c0.symbols.enums(),
                self.ctx().symbols.consts() == c0.symbols.consts(),
                self.ctx().symbols.builtins() == c0.symbols.builtins(),
        {
            let ghost pre = items.subrange(0, i as int);
            let ghost post = items.subrange(0, i + 1);
            proof {
                lemma_declare_names(Set::empty(), pre);
                assert(post.drop_last() =~= pre);
                assert(post.last() == items[i as int]);
            }
            let decl = &program.agents[i];
            if self.symbols.has_agent(decl.name.name.as_str()) {
                self.error(CheckError::duplicate_definition(decl.name.name.as_str(), &decl.span));
                proof {
                    assert forall|k: Seq<char>| #[trigger] self.ctx().symbols.agents().contains_key(k) implies first_decl(post, k) == first_decl(pre, k) by {}
                    assert(self.st().errors =~= s0.errors + declare_names(Set::empty(), post).1);
                }
            } else {
                let info = Checker::collect_agent(decl, &self.current_module);
                self.symbols.define_agent(info);
                proof {
                    assert(first_decl(post, decl.name.name@) == i);
                    assert(self.ctx().symbols.agents().dom() =~= declare_names(Set::empty(), post).0);
                }
            }
        }
        assert(items.subrange(0, n as int) =~= items);
    }

    /// Declare the functions of a program: the first declaration of each name;
    /// a later one is a `DuplicateDefinition`.
    fn collect_functions(&mut self, program: &Program)
        requires
            old(self).inv(),
            old(self).ctx().symbols.functions().dom().len() == 0,
            old(self).ctx().symbols.functions().dom().finite(),
        ensures
            final(self).inv(),
            final(self).module() == old(self).module(),
            final(self).ctx() == (Ctx { symbols: final(self).ctx().symbols, ..old(self).ctx() }),
            final(self).st() == (St {
                errors: old(self).st().errors + declare_names(Set::empty(), function_items(program.functions@)).1,
                ..old(self).st()
            }),
            final(self).ctx().symbols.functions().dom() == declare_names(Set::empty(), function_items(program.functions@)).0,
            forall|k: Seq<char>| #[trigger] final(self).ctx().symbols.functions().contains_key(k) ==> function_models(
                final(self).ctx().symbols.functions()[k],
                program.functions@[first_decl(function_items(program.functions@), k)],
                old(self).module(),
            ),
            final(self).ctx().symbols.agents() == old(self).ctx().symbols.agents(),
            final(self).ctx().symbols.supervisors() == old(self).ctx().symbols.supervisors(),
            final(self).ctx().symbols.protocols() == old(self).ctx().symbols.protocols(),
            final(self).ctx().symbols.effect_handlers() == old(self).ctx().symbols.effect_handlers(),
            final(self).ctx().symbols.records() == old(self).ctx().symbols.records(),
            final(self).ctx().symbols.enums() == old(self).ctx().symbols.enums(),
            final(self).ctx().symbols.consts() == old(self).ctx().symbols.consts(),
            final(self).ctx().symbols.builtins() == old(self).ctx().symbols.builtins(),
    {
        let ghost c0 = self.ctx();
        let ghost s0 = self.st();
        let ghost items = function_items(program.functions@);
        let n = program.functions.len();
        assert(items.subrange(0, 0) =~= Seq::<(Seq<char>, Span)>::empty());
        assert(s0.errors + Seq::<ErrV>::empty() =~= s0.errors);
        assert(c0.symbols.functions().dom() =~= Set::<Seq<char>>::empty());
        for i in 0..n
            invariant
                n == program.functions@.len(),
                items == function_items(program.functions@),
                self.inv(),
                self.module() == old(self).module(),
                self.ctx() == (Ctx { symbols: self.ctx().symbols, ..c0 }),
                self.st() == (St { errors: s0.errors + declare_names(Set::empty(), items.subrange(0, i as int)).1, ..s0 }),
                self.ctx().symbols.functions().dom() == declare_names(Set::empty(), items.subrange(0, i as int)).0,
                forall|k: Seq<char>| #[trigger] self.ctx().symbols.functions().contains_key(k) ==> function_models(
                    self.ctx().symbols.functions()[k],
                    program.functions@[first_decl(items.subrange(0, i as int), k)],
                    old(self).module(),
                ),
                self.ctx().symbols.agents() == c0.symbols.agents(),
                self.ctx().symbols.supervisors() == c0.symbols.supervisors(),
                self.ctx().symbols.protocols() == c0.symbols.protocols(),
                self.ctx().symbols.effect_handlers() == c0.symbols.effect_handlers(),
                self.ctx().symbols.records() == c0.symbols.records(),
                self.ctx().symbols.enums() == c0.symbols.enums(),
                self.ctx().symbols.consts() == c0.symbols.consts(),
                self.ctx().symbols.builtins() == c0.symbols.builtins(),
        {
            let ghost pre = items.subrange(0, i as int);
            let ghost post = items.subrange(0, i + 1);
            proof {
                lemma_declare_names(Set::empty(), pre);
                assert(post.drop_last() =~= pre);
                assert(post.last() == items[i as int]);
            }
            let decl = &program.functions[i];
            if self.symbols.has_function(decl.name.name.as_str()) {
                self.error(CheckError::duplicate_definition(decl.name.name.as_str(), &decl.span));
                proof {
                    assert forall|k: Seq<char>| #[trigger] self.ctx().symbols.functions().contains_key(k) implies first_decl(post, k) == first_decl(pre, k) by {}
                    assert(self.st().errors =~= s0.errors + declare_names(Set::empty(), post).1);
                }
            } else {
                let info = Checker::collect_function(decl, &self.current_module);
                self.symbols.define_function(info);
                proof {
                    assert(first_decl(post, decl.name.name@) == i);
                    assert(self.ctx().symbols.functions().dom() =~= declare_names(Set::empty(), post).0);
                }
            }
        }
        assert(items.subrange(0, n as int) =~= items);
    }

    /// Declare the records of a program: the first declaration of each name;
    /// a later one is a `DuplicateDefinition`.
    fn collect_records(&mut self, program: &Program)
        requires
            old(self).inv(),
            old(self).ctx().symbols.records().dom().len() == 0,
            old(self).ctx().symbols.records().dom().finite(),
        ensures
            final(self).inv(),
            final(self).module() == old(self).module(),
            final(self).ctx() == (Ctx { symbols: final(self).ctx().symbols, ..old(self).ctx() }),
            final(self).st() == (St {
                errors: old(self).st().errors + declare_names(Set::empty(), record_items(program.records@)).1,
                ..old(self).st()
            }),
            final(self).ctx().symbols.records().dom() == declare_names(Set::empty(), record_items(program.records@)).0,
            forall|k: Seq<char>| #[trigger] final(self).ctx().symbols.records().contains_key(k) ==> record_models(
                final(self).ctx().symbols.records()[k],
                program.records@[first_decl(record_items(program.records@), k)],
                old(self).module(),
            ),
            final(self).ctx().symbols.agents() == old(self).ctx().symbols.agents(),
            final(self).ctx().symbols.supervisors() == old(self).ctx().symbols.supervisors(),
            final(self).ctx().symbols.protocols() == old(self).ctx().symbols.protocols(),
            final(self).ctx().symbols.effect_handlers() == old(self).ctx().symbols.effect_handlers(),
            final(self).ctx().symbols.functions() == old(self).ctx().symbols.functions(),
            final(self).ctx().symbols.enums() == old(self).ctx().symbols.enums(),
            final(self).ctx().symbols.consts() == old(self).ctx().symbols.consts(),
            final(self).ctx().symbols.builtins() == old(self).ctx().symbols.builtins(),
    {
        let ghost c0 = self.ctx();
        let ghost s0 = self.st();
        let ghost items = record_items(program.records@);
        let n = program.records.len();
        assert(items.subrange(0, 0) =~= Seq::<(Seq<char>, Span)>::empty());
        assert(s0.errors + Seq::<ErrV>::empty() =~= s0.errors);
        assert(c0.symbols.records().dom() =~= Set::<Seq<char>>::empty());
        for i in 0..n
            invariant
                n == program.records@.len(),
                items == record_items(program.records@),
                self.inv(),
                self.module() == old(self).module(),
                self.ctx() == (Ctx { symbols: self.ctx().symbols, ..c0 }),
                self.st() == (St { errors: s0.errors + declare_names(Set::empty(), items.subrange(0, i as int)).1, ..s0 }),
                self.ctx().symbols.records().dom() == declare_names(Set::empty(), items.subrange(0, i as int)).0,
                forall|k: Seq<char>| #[trigger] self.ctx().symbols.records().contains_key(k) ==> record_models(
                    self.ctx().symbols.records()[k],
                    program.records@[first_decl(items.subrange(0, i as int), k)],
                    old(self).module(),
                ),
                self.ctx().symbols.agents() == c0.symbols.agents(),
                self.ctx().symbols.supervisors() == c0.symbols.supervisors(),
                self.ctx().symbols.protocols() == c0.symbols.protocols(),
                self.ctx().symbols.effect_handlers() == c0.symbols.effect_handlers(),
                self.ctx().symbols.functions() == c0.symbols.functions(),
                self.ctx().symbols.enums() == c0.symbols.enums(),
                self.ctx().symbols.consts() == c0.symbols.consts(),
                self.ctx().symbols.builtins() == c0.symbols.builtins(),
        {
            let ghost pre = items.subrange(0, i as int);
            let ghost post = items.subrange(0, i + 1);
            proof {
                lemma_declare_names(Set::empty(), pre);
                assert(post.drop_last() =~= pre);
                assert(post.last() == items[i as int]);
            }
            let decl = &program.records[i];
            if self.symbols.has_record(decl.name.name.as_str()) {
                self.error(CheckError::duplicate_definition(decl.name.name.as_str(), &decl.span));
                proof {
                    assert forall|k: Seq<char>| #[trigger] self.ctx().symbols.records().contains_key(k) implies first_decl(post, k) == first_decl(pre, k) by {}
                    assert(self.st().errors =~= s0.errors + declare_names(Set::empty(), post).1);
                }
            } else {
                let info = Checker::collect_record(decl, &self.current_module);
                self.symbols.define_record(info);
                proof {
                    assert(first_decl(post, decl.name.name@) == i);
                    assert(self.ctx().symbols.records().dom() =~= declare_names(Set::empty(), post).0);
                }
            }
        }
        assert(items.subrange(0, n as int) =~= items);
    }

    /// Declare the consts of a program: the first declaration of each name;
    /// a later one is a `DuplicateDefinition`.
    fn collect_consts(&mut self, program: &Program)
        requires
            old(self).inv(),
            old(self).ctx().symbols.consts().dom().len() == 0,
            old(self).ctx().symbols.consts().dom().finite(),
        ensures
            final(self).inv(),
            final(self).module() == old(self).module(),
            final(self).ctx() == (Ctx { symbols: final(self).ctx().symbols, ..old(self).ctx() }),
            final(self).st() == (St {
                errors: old(self).st().errors + declare_names(Set::empty(), const_items(program.consts@)).1,
                ..old(self).st()
            }),
            final(self).ctx().symbols.consts().dom() == declare_names(Set::empty(), const_items(program.consts@)).0,
            forall|k: Seq<char>| #[trigger] final(self).ctx().symbols.consts().contains_key(k) ==> const_models(
                final(self).ctx().symbols.consts()[k],
                program.consts@[first_decl(const_items(program.consts@), k)],
                old(self).module(),
            ),
            final(self).ctx().symbols.agents() == old(self).ctx().symbols.agents(),
            final(self).ctx().symbols.supervisors() == old(self).ctx().symbols.supervisors(),
            final(self).ctx().symbols.protocols() == old(self).ctx().symbols.protocols(),
            final(self).ctx().symbols.effect_handlers() == old(self).ctx().symbols.effect_handlers(),
            final(self).ctx().symbols.functions() == old(self).ctx().symbols.functions(),
            final(self).ctx().symbols.records() == old(self).ctx().symbols.records(),
            final(self).ctx().symbols.enums() == old(self).ctx().symbols.enums(),
            final(self).ctx().symbols.builtins() == old(self).ctx().symbols.builtins(),
    {
        let ghost c0 = self.ctx();
        let ghost s0 = self.st();
        let ghost items = const_items(program.consts@);
        let n = program.consts.len();
        assert(items.subrange(0, 0) =~= Seq::<(Seq<char>, Span)>::empty());
        assert(s0.errors + Seq::<ErrV>::empty() =~= s0.errors);
        assert(c0.symbols.consts().dom() =~= Set::<Seq<char>>::empty());
        for i in 0..n
            invariant
                n == program.consts@.len(),
                items == const_items(program.consts@),
                self.inv(),
                self.module() == old(self).module(),
                self.ctx() == (Ctx { symbols: self.ctx().symbols, ..c0 }),
                self.st() == (St { errors: s0.errors + declare_names(Set::empty(), items.subrange(0, i as int)).1, ..s0 }),
                self.ctx().symbols.consts().dom() == declare_names(Set::empty(), items.subrange(0, i as int)).0,
                forall|k: Seq<char>| #[trigger] self.ctx().symbols.consts().contains_key(k) ==> const_models(
                    self.ctx().symbols.consts()[k],
                    program.consts@[first_decl(items.subrange(0, i as int), k)],
                    old(self).module(),
                ),
                self.ctx().symbols.agents() == c0.symbols.agents(),
                self.ctx().symbols.supervisors() == c0.symbols.supervisors(),
                self.ctx().symbols.protocols() == c0.symbols.protocols(),
                self.ctx().symbols.effect_handlers() == c0.symbols.effect_handlers(),
                self.ctx().symbols.functions() == c0.symbols.functions(),
                self.ctx().symbols.records() == c0.symbols.records(),
                self.ctx().symbols.enums() == c0.symbols.enums(),
                self.ctx().symbols.builtins() == c0.symbols.builtins(),
        {
            let ghost pre = items.subrange(0, i as int);
            let ghost post = items.subrange(0, i + 1);
            proof {
                lemma_declare_names(Set::empty(), pre);
                assert(post.drop_last() =~= pre);
                assert(post.last() == items[i as int]);
            }
            let decl = &program.consts[i];
            if self.symbols.has_const(decl.name.name.as_str()) {
                self.error(CheckError::duplicate_definition(decl.name.name.as_str(), &decl.span));
                proof {
                    assert forall|k: Seq<char>| #[trigger] self.ctx().symbols.consts().contains_key(k) implies first_decl(post, k) == first_decl(pre, k) by {}
                    assert(self.st().errors =~= s0.errors + declare_names(Set::empty(), post).1);
                }
            } else {
                let info = Checker::collect_const(decl, &self.current_module);
                self.symbols.define_const(info);
                proof {
                    assert(first_decl(post, decl.name.name@) == i);
                    assert(self.ctx().symbols.consts().dom() =~= declare_names(Set::empty(), post).0);
                }
            }
        }
        assert(items.subrange(0, n as int) =~= items);
    }

    /// Declare the enums of a program: the first declaration of each name
    /// that is not a built-in enum; any other is a `DuplicateDefinition`.
    fn collect_enums(&mut self, program: &Program)
        requires
            old(self).inv(),
            old(self).ctx().symbols.enums_view() == spec_builtin_enums(),
        ensures
            final(self).inv(),
            final(self).module() == old(self).module(),
            final(self).ctx() == (Ctx { symbols: final(self).ctx().symbols, ..old(self).ctx() }),
            final(self).st() == (St {
                errors: old(self).st().errors + declare_names(builtin_enum_names(), enum_items(program.enums@)).1,
                ..old(self).st()
            }),
            final(self).ctx().symbols.enums().dom() == declare_names(builtin_enum_names(), enum_items(program.enums@)).0,
            forall|k: Seq<char>| #[trigger] final(self).ctx().symbols.enums().contains_key(k) ==> if builtin_enum_names().contains(k) {
                final(self).ctx().symbols.enums()[k]@ == spec_builtin_enums()[k]
            } else {
                enum_models(
                    final(self).ctx().symbols.enums()[k],
                    program.enums@[first_decl(enum_items(program.enums@), k)],
                    old(self).module(),
                )
            },
            final(self).ctx().symbols.agents() == old(self).ctx().symbols.agents(),
            final(self).ctx().symbols.supervisors() == old(self).ctx().symbols.supervisors(),
            final(self).ctx().symbols.protocols() == old(self).ctx().symbols.protocols(),
            final(self).ctx().symbols.effect_handlers() == old(self).ctx().symbols.effect_handlers(),
            final(self).ctx().symbols.functions() == old(self).ctx().symbols.functions(),
            final(self).ctx().symbols.records() == old(self).ctx().symbols.records(),
            final(self).ctx().symbols.consts() == old(self).ctx().symbols.consts(),
            final(self).ctx().symbols.builtins() == old(self).ctx().symbols.builtins(),
    {
        let ghost c0 = self.ctx();
        let ghost s0 = self.st();
        let ghost items = enum_items(program.enums@);
        let n = program.enums.len();
        assert(items.subrange(0, 0) =~= Seq::<(Seq<char>, Span)>::empty());
        assert(s0.errors + Seq::<ErrV>::empty() =~= s0.errors);
        assert(c0.symbols.enums().dom() =~= builtin_enum_names()) by {
            assert(c0.symbols.enums_view().dom() =~= spec_builtin_enums().dom());
        }
        assert forall|k: Seq<char>| #[trigger] c0.symbols.enums().contains_key(k) implies c0.symbols.enums()[k]@ == spec_builtin_enums()[k] by {
            assert(c0.symbols.enums_view()[k] == c0.symbols.enums()[k]@);
        }
        for i in 0..n
            invariant
                n == program.enums@.len(),
                items == enum_items(program.enums@),
                self.inv(),
                self.module() == old(self).module(),
                self.ctx() == (Ctx { symbols: self.ctx().symbols, ..c0 }),
                self.st() == (St { errors: s0.errors + declare_names(builtin_enum_names(), items.subrange(0, i as int)).1, ..s0 }),
                self.ctx().symbols.enums().dom() == declare_names(builtin_enum_names(), items.subrange(0, i as int)).0,
                forall|k: Seq<char>| #[trigger] self.ctx().symbols.enums().contains_key(k) ==> if builtin_enum_names().contains(k) {
                    self.ctx().symbols.enums()[k]@ == spec_builtin_enums()[k]
                } else {
                    enum_models(
                        self.ctx().symbols.enums()[k],
                        program.enums@[first_decl(items.subrange(0, i as int), k)],
                        old(self).module(),
                    )
                },
                self.ctx().symbols.agents() == c0.symbols.agents(),
                self.ctx().symbols.supervisors() == c0.symbols.supervisors(),
                self.ctx().symbols.protocols() == c0.symbols.protocols(),
                self.ctx().symbols.effect_handlers() == c0.symbols.effect_handlers(),
                self.ctx().symbols.functions() == c0.symbols.functions(),
                self.ctx().symbols.records() == c0.symbols.records(),
                self.ctx().symbols.consts() == c0.symbols.consts(),
                self.ctx().symbols.builtins() == c0.symbols.builtins(),
        {
            let ghost pre = items.subrange(0, i as int);
            let ghost post = items.subrange(0, i + 1);
            proof {
                lemma_declare_names(builtin_enum_names(), pre);
                assert(post.drop_last() =~= pre);
                assert(post.last() == items[i as int]);
            }
            let decl = &program.enums[i];
            if self.symbols.has_enum(decl.name.name.as_str()) {
                self.error(CheckError::duplicate_definition(decl.name.name.as_str(), &decl.span));
                proof {
                    assert(self.st().errors =~= s0.errors + declare_names(builtin_enum_names(), post).1);
                }
            } else {
                let info = Checker::collect_enum(decl, &self.current_module);
                self.symbols.define_enum(info);
                proof {
                    assert(first_decl(post, decl.name.name@) == i);
                    assert(self.ctx().symbols.enums().dom() =~= declare_names(builtin_enum_names(), post).0);
                }
            }
        }
        assert(items.subrange(0, n as int) =~= items);
    }

    /// The first pass: declare the agents, functions, records, enums and
    /// constants of a program.
    fn collect_declarations(&mut self, program: &Program)
        requires
            old(self).inv(),
            old(self).ctx().symbols.builtins() == spec_builtins(),
            old(self).ctx().symbols.enums_view() == spec_builtin_enums(),
            old(self).ctx().symbols.agents() == Map::<Seq<char>, AgentInfo>::empty(),
            old(self).ctx().symbols.supervisors() == Map::<Seq<char>, crate::scope::SupervisorInfo>::empty(),
            old(self).ctx().symbols.protocols() == Map::<Seq<char>, crate::scope::ProtocolInfo>::empty(),
            old(self).ctx().symbols.effect_handlers() == Map::<Seq<char>, crate::scope::EffectHandlerInfo>::empty(),
            old(self).ctx().symbols.functions() == Map::<Seq<char>, FunctionInfo>::empty(),
            old(self).ctx().symbols.records() == Map::<Seq<char>, RecordInfo>::empty(),
            old(self).ctx().symbols.consts() == Map::<Seq<char>, ConstInfo>::empty(),
        ensures
            final(self).inv(),
            final(self).module() == old(self).module(),
            final(self).ctx() == (Ctx { symbols: final(self).ctx().symbols, ..old(self).ctx() }),
            final(self).st() == (St { errors: old(self).st().errors + collect_errors(*program), ..old(self).st() }),
            collected(final(self).ctx().symbols, *program, old(self).module()),
    {
        let ghost s0 = self.st();
        assert(Map::<Seq<char>, AgentInfo>::empty().dom() =~= Set::<Seq<char>>::empty());
        assert(Map::<Seq<char>, FunctionInfo>::empty().dom() =~= Set::<Seq<char>>::empty());
        assert(Map::<Seq<char>, RecordInfo>::empty().dom() =~= Set::<Seq<char>>::empty());
        assert(Map::<Seq<char>, ConstInfo>::empty().dom() =~= Set::<Seq<char>>::empty());
        self.collect_agents(program);
        self.collect_functions(program);
        self.collect_records(program);
        self.collect_enums(program);
        self.collect_consts(program);
        assert(self.st().errors =~= s0.errors + collect_errors(*program));
    }

    /// A checker that has checked nothing yet: the built-ins and no other
    /// declarations, no errors, one empty scope, outside any agent or function.
    pub open spec fn fresh(&self) -> bool {
        &&& self.inv()
        &&& self.ctx() == program_ctx(self.ctx().symbols)
        &&& self.st() == initial_st()
        &&& self.ctx().symbols.builtins() == spec_builtins()
        &&& self.ctx().symbols.enums_view() == spec_builtin_enums()
        &&& self.ctx().symbols.agents() == Map::<Seq<char>, AgentInfo>::empty()
        &&& self.ctx().symbols.supervisors() == Map::<Seq<char>, crate::scope::SupervisorInfo>::empty()
        &&& self.ctx().symbols.protocols() == Map::<Seq<char>, crate::scope::ProtocolInfo>::empty()
        &&& self.ctx().symbols.effect_handlers() == Map::<Seq<char>, crate::scope::EffectHandlerInfo>::empty()
        &&& self.ctx().symbols.functions() == Map::<Seq<char>, FunctionInfo>::empty()
        &&& self.ctx().symbols.records() == Map::<Seq<char>, RecordInfo>::empty()
        &&& self.ctx().symbols.consts() == Map::<Seq<char>, ConstInfo>::empty()
    }

    /// Create a new type checker for the root module.
    pub fn new() -> (r: Self)
        ensures
            r.fresh(),
            r.module() == Seq::<String>::empty(),
    {
        Checker::for_module(Vec::new())
    }

    /// Create a new type checker for a specific module.
    pub fn for_module(module: Vec<String>) -> (r: Self)
        ensures
            r.fresh(),
            r.module() == module@,
    {
        let mut scopes: Vec<Scope> = Vec::new();
        let sc = Scope::new();
        assert(vars_view(sc) =~= Map::<Seq<char>, TypeV>::empty());
        scopes.push(sc);
        let r = Checker {
            symbols: SymbolTable::new(),
            scopes,
            errors: Vec::new(),
            current_agent: None,
            in_function: false,
            expected_return: None,
            used_beliefs: NameSet::new(),
            current_module: module,
            in_loop: false,
            receives_type: None,
            in_fallible_context: false,
            agent_has_error_handler: false,
            in_error_handling: false,
            current_agent_tools: NameSet::new(),
            scope: Scope::with_builtins(),
            emitted: NameMap::new(),
            modular: false,
            imports: NameMap::new(),
            frozen_emits: NameMap::new(),
        };
        assert(r.st().errors =~= Seq::<ErrV>::empty());
        assert(r.st().scopes =~= seq![Map::<Seq<char>, TypeV>::empty()]);
        assert(r.st().emits =~= Map::<Seq<char>, TypeV>::empty());
        assert(r.ctx().imports =~= Map::<Seq<char>, (Seq<Seq<char>>, Seq<char>)>::empty());
        assert(r.ctx().emit_types =~= Map::<Seq<char>, TypeV>::empty());
        r
    }

    /// Set each agent's emit type to the type it was seen to emit.
    fn record_emit_types(&mut self)
        requires
            old(self).inv(),
            forall|k: Seq<char>| #[trigger] old(self).ctx().symbols.agents().contains_key(k)
                ==> old(self).ctx().symbols.agents()[k].emit_type is None,
        ensures
            final(self).inv(),
            with_emits(old(self).ctx().symbols, final(self).ctx().symbols, old(self).st().emits),
            final(self).st().errors == old(self).st().errors,
    {
        let ghost t0 = self.ctx().symbols;
        let ghost e = self.st().emits;
        let entries = self.emitted.entries();
        let n = entries.len();
        for i in 0..n
            invariant
                n == entries@.len(),
                entries@ == self.emitted.entry_seq(),
                crate::names::distinct_keys(entries@),
                forall|j: int| 0 <= j < n ==> #[trigger] self.emitted@.contains_key(entries@[j].0@),
                forall|j: int| 0 <= j < n ==> self.emitted@[#[trigger] entries@[j].0@] == entries@[j].1,
                forall|k: Seq<char>| #[trigger] self.emitted@.contains_key(k) ==> exists|j: int|
                    0 <= j < n && entries@[j].0@ == k,
                e == self.emitted@.map_values(|t: Type| t@),
                self.inv(),
                self.st().errors == old(self).st().errors,
                self.symbols.wf(),
                self.symbols.agents().dom() == t0.agents().dom(),
                forall|k: Seq<char>| #[trigger] self.symbols.agents().contains_key(k) ==> agent_decl_same(
                    self.symbols.agents()[k],
                    t0.agents()[k],
                ) && opt_tv(self.symbols.agents()[k].emit_type) == (if exists|j: int|
                    0 <= j < i && entries@[j].0@ == k {
                    Some(e[k])
                } else {
                    None
                }),
                self.symbols.supervisors() == t0.supervisors(),
                self.symbols.protocols() == t0.protocols(),
                self.symbols.effect_handlers() == t0.effect_handlers(),
                self.symbols.functions() == t0.functions(),
                self.symbols.builtins() == t0.builtins(),
                self.symbols.records() == t0.records(),
                self.symbols.enums() == t0.enums(),
                self.symbols.consts() == t0.consts(),
        {
            let name = entries[i].0.as_str();
            let ty = entries[i].1.deep_copy();
            let ghost tv = ty@;
            let ghost before = self.symbols.agents();
            match self.symbols.get_agent_mut(name) {
                Some(agent) => {
                    agent.emit_type = Some(ty);
                },
                None => {},
            }
            proof {
                assert forall|k: Seq<char>| #[trigger] self.symbols.agents().contains_key(k) implies agent_decl_same(
                    self.symbols.agents()[k],
                    t0.agents()[k],
                ) && opt_tv(self.symbols.agents()[k].emit_type) == (if exists|j: int|
                    0 <= j < i + 1 && entries@[j].0@ == k {
                    Some(e[k])
                } else {
                    None
                }) by {
                    if k == name@ {
                        assert(entries@[i as int].0@ == k);
                    } else {
                        if exists|j: int| 0 <= j < i + 1 && entries@[j].0@ == k {
                            let j = choose|j: int| 0 <= j < i + 1 && entries@[j].0@ == k;
                            assert(j < i);
                        }
                    }
                }
            }
        }
    }

    /// Check a complete program: first collect its declarations, then check
    /// its agents, functions and constants, then its entry agent.
    pub fn check(self, program: &Program) -> (r: CheckResult)
        requires
            self.fresh(),
        ensures
            checks_to(*program, self.module(), r),
    {
        let mut checker = self;
        let ghost module = checker.module();
        checker.collect_declarations(program);
        let ghost t = checker.ctx().symbols;
        assert(checker.ctx() == program_ctx(t));
        assert(checker.st() == (St { errors: collect_errors(*program), ..initial_st() })) by {
            assert(Seq::<ErrV>::empty() + collect_errors(*program) =~= collect_errors(*program));
        }
        checker.check_bodies(program);
        let ghost s = checker.st();
        assert(s == program_st(t, *program));
        proof {
            assert forall|k: Seq<char>| #[trigger] t.agents().contains_key(k) implies t.agents()[k].emit_type is None by {}
        }
        checker.record_emit_types();
        let r = CheckResult { symbols: checker.symbols, errors: checker.errors };
        assert(collected(t, *program, module) && errs_view(r.errors@) == program_st(t, *program).errors && with_emits(
            t,
            r.symbols,
            program_st(t, *program).emits,
        ));
        r
    }
}

impl Default for Checker {
    fn default() -> (r: Self)
        ensures
            r.fresh(),
            r.module() == Seq::<String>::empty(),
    {
        Checker::new()
    }
}

/// Check a program for semantic errors: the result holds its collected
/// declarations and every error found.
pub fn check(program: &Program) -> (r: CheckResult)
    ensures
        checks_to(*program, Seq::empty(), r),
{
    Checker::new().check(program)
}


} // verus!
