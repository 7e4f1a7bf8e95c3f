//! The typing rules of expressions, as spec functions over the checker's
//! models: for each expression, the state after checking it and its type.

use vstd::prelude::*;
use crate::ast::Expr;
use crate::ast::AgentDecl;
use crate::ast::BeliefDecl;
use crate::ast::ConstDecl;
use crate::ast::EventKind;
use crate::ast::FnDecl;
use crate::ast::HandlerDecl;
use crate::ast::Param;
use crate::ast::Program;
use crate::ast::Block;
use crate::ast::ElseBranch;
use crate::ast::Ident;
use crate::ast::Stmt;
use crate::ast::FieldInit;
use crate::ast::MapEntry;
use crate::ast::MatchArm;
use crate::ast::ClosureParam;
use crate::ast::Pattern;
use crate::ast::Literal;
use crate::ast::Span;
use crate::ast::StringPart;
use crate::ast::TypeExpr;
use crate::ast::expr_span;
use crate::checker::Ctx;
use crate::checker::St;
use crate::checker::push_err;
use crate::checker::push_scope_v;
use crate::checker::pop_scope_v;
use crate::checker::define_v;
use crate::checker::lookup_v;
use crate::checker::binary_v;
use crate::checker::unary_v;
use crate::checker::lit_type;
use crate::checker::pattern_v;
use crate::checker::enum_variants;
use crate::error::ErrV;
use crate::names::NameMap;
use crate::scope::ToolFnV;
use crate::resolve::resolved;
use crate::scope::variant_index;
use crate::types::Type;
use crate::types::TypeV;
use crate::types::compatible;
use crate::types::display;

verus! {

/// The name after a `self.` prefix, if the name has one.
pub open spec fn self_suffix(n: Seq<char>) -> Option<Seq<char>> {
    if n.len() >= 5 && n.subrange(0, 5) == "self."@ {
        Some(n.subrange(5, n.len() as int))
    } else {
        None
    }
}

/// The type of a variable, parameter or field as declared (no type parameters).
pub open spec fn declared(t: TypeExpr) -> TypeV {
    resolved(t, Set::empty())
}

/// The types of named parameters.
pub open spec fn param_types(ps: Seq<(String, Type)>) -> Seq<TypeV> {
    Seq::new(ps.len(), |i: int| ps[i].1@)
}

/// The parameter types of a tool function.
pub open spec fn tool_param_types(f: ToolFnV) -> Seq<TypeV> {
    Seq::new(f.params.len(), |i: int| f.params[i].1)
}

/// The models of a list of types.
pub open spec fn types_of(ts: Seq<Type>) -> Seq<TypeV> {
    Seq::new(ts.len(), |i: int| ts[i]@)
}

/// Whether some field initializer has the name `n`.
pub open spec fn provides(fields: Seq<FieldInit>, n: Seq<char>) -> bool {
    exists|i: int| 0 <= i < fields.len() && #[trigger] fields[i].name.name@ == n
}

/// A `TypeMismatch` error unless `found` is compatible with `expected`.
pub open spec fn expect_v(s: St, expected: TypeV, found: TypeV, span: Span) -> St {
    if compatible(found, expected) {
        s
    } else {
        push_err(s, ErrV::TypeMismatch { expected: display(expected), found: display(found), span })
    }
}

/// An `UnhandledError` for a fallible operation outside `try`/`catch`.
pub open spec fn unhandled_v(c: Ctx, s: St, what: Seq<char>, span: Span) -> St {
    if c.in_error_handling {
        s
    } else {
        push_err(s, ErrV::UnhandledError { name: what, span })
    }
}

// =========================================================================
// Expressions
// =========================================================================

/// Checking an expression: the state after it and its type.
pub open spec fn expr_v(c: Ctx, s: St, e: Expr) -> (St, TypeV)
    decreases e, 2int,
{
    match e {
        Expr::Literal { value, .. } => (s, lit_type(value)),
        Expr::Var { name, .. } => lookup_v(c, s, name.name@, name.span),
        Expr::List { .. } => list_v(c, s, e),
        Expr::Binary { op, left, right, span } => {
            let (s1, lt) = expr_v(c, s, *left);
            let (s2, rt) = expr_v(c, s1, *right);
            binary_v(s2, op, lt, rt, span)
        },
        Expr::Unary { op, operand, span } => {
            let (s1, t) = expr_v(c, s, *operand);
            unary_v(s1, op, t, span)
        },
        Expr::Call { .. } => call_v(c, s, e),
        Expr::SelfField { field, span } => self_field_v(c, s, field.name@, span),
        Expr::SelfMethodCall { method, span, .. } => (
            push_err(s, ErrV::UndefinedFunction { name: method.name@, span }),
            TypeV::Error,
        ),
        Expr::Infer { template, result_ty, span } => {
            let s1 = if c.modular {
                s
            } else {
                unhandled_v(c, s, "infer"@, span)
            };
            let s2 = St { used: infer_used(s1.used, template.parts@), ..s1 };
            let inner = match result_ty {
                Some(t) => declared(t),
                None => TypeV::Str,
            };
            (s2, TypeV::Inferred(Box::new(inner)))
        },
        Expr::Spawn { .. } => spawn_v(c, s, e),
        Expr::Await { handle, span } => {
            let (s1, ht) = expr_v(c, s, *handle);
            let s2 = unhandled_v(c, s1, "await"@, span);
            match ht {
                TypeV::Agent(n) => (s2, await_type(c, s2, n)),
                TypeV::Error => (s2, TypeV::Error),
                _ => (push_err(s2, ErrV::AwaitNonAgent { ty: display(ht), span }), TypeV::Error),
            }
        },
        Expr::Send { .. } => send_v(c, s, e),
        Expr::Emit { value, .. } => {
            let (s1, vt) = expr_v(c, s, *value);
            match c.current_agent {
                Some(a) => if c.modular || c.agents().contains_key(a) {
                    (St { emits: s1.emits.insert(a, vt), ..s1 }, TypeV::Unit)
                } else {
                    (s1, TypeV::Unit)
                },
                None => (s1, TypeV::Unit),
            }
        },
        Expr::Paren { inner, .. } => expr_v(c, s, *inner),
        Expr::StringInterp { template, .. } => (interp_v(c, s, template.parts@), TypeV::Str),
        Expr::Match { .. } => match_v(c, s, e),
        Expr::RecordConstruct { .. } => record_v(c, s, e),
        Expr::FieldAccess { object, field, span } => {
            let (s1, ot) = expr_v(c, s, *object);
            field_access_v(c, s1, ot, field.name@, span)
        },
        Expr::Receive { span } => match c.current_agent {
            None => (push_err(s, ErrV::ReceiveOutsideAgent { span }), TypeV::Error),
            Some(a) => match c.receives {
                Some(t) => (s, t),
                None => (push_err(s, ErrV::ReceiveWithoutReceives { name: a, span }), TypeV::Error),
            },
        },
        Expr::Try { expr, span } => {
            let s1 = try_context_v(c, s, span);
            expr_v(Ctx { in_error_handling: true, ..c }, s1, *expr)
        },
        Expr::Catch { .. } => catch_v(c, s, e),
        Expr::Closure { .. } => closure_v(c, s, e),
        Expr::Tuple { elements, .. } => {
            let (s1, ts) = exprs_v(c, s, elements@);
            (s1, TypeV::Tuple(ts))
        },
        Expr::TupleIndex { tuple, index, span } => {
            let (s1, tt) = expr_v(c, s, *tuple);
            match tt {
                TypeV::Tuple(ts) => if index < ts.len() {
                    (s1, ts[index as int])
                } else {
                    (push_err(s1, ErrV::TupleIndexOutOfBounds { index: index as nat, len: ts.len(), span }), TypeV::Error)
                },
                TypeV::Error => (s1, TypeV::Error),
                _ => (push_err(s1, ErrV::TypeMismatch { expected: "tuple"@, found: display(tt), span }), TypeV::Error),
            }
        },
        Expr::Dict { .. } => dict_v(c, s, e),
        Expr::VariantConstruct { .. } => variant_v(c, s, e),
        Expr::ToolCall { .. } => tool_call_v(c, s, e),
    }
}

/// The type of `await` on a handle of agent `n`: the type the agent was
/// seen to emit, else `String`. A module of a tree sees the emit types
/// recorded by the modules checked before it.
pub open spec fn await_type(c: Ctx, s: St, n: Seq<char>) -> TypeV {
    if c.modular {
        match c.agent_key(n) {
            Some(k) => if c.emit_types.contains_key(k) {
                c.emit_types[k]
            } else {
                TypeV::Str
            },
            None => TypeV::Str,
        }
    } else if s.emits.contains_key(n) {
        s.emits[n]
    } else {
        TypeV::Str
    }
}

/// Reading `self.field`: the belief's type, marking it read.
pub open spec fn self_field_v(c: Ctx, s: St, field: Seq<char>, span: Span) -> (St, TypeV) {
    match c.current_agent {
        None => (push_err(s, ErrV::SelfOutsideAgent { span }), TypeV::Error),
        Some(a) => if !c.agents().contains_key(a) {
            (s, TypeV::Error)
        } else if c.agents()[a].beliefs@.contains_key(field) {
            (St { used: s.used.insert(field), ..s }, c.agents()[a].beliefs@[field]@)
        } else {
            (push_err(s, ErrV::UndefinedBelief { name: field, span }), TypeV::Error)
        },
    }
}

/// The beliefs read by the `self.` interpolations of an `infer` template.
pub open spec fn infer_used(u: Set<Seq<char>>, parts: Seq<StringPart>) -> Set<Seq<char>>
    decreases parts.len(),
{
    if parts.len() == 0 {
        u
    } else {
        let u1 = infer_used(u, parts.drop_last());
        match parts.last() {
            StringPart::Interpolation(id) => match self_suffix(id.name@) {
                Some(f) => u1.insert(f),
                None => u1,
            },
            _ => u1,
        }
    }
}

/// Checking the interpolations of a string: `self.` names must be beliefs of
/// the current agent; other names must be variables.
pub open spec fn interp_v(c: Ctx, s: St, parts: Seq<StringPart>) -> St
    decreases parts.len(),
{
    if parts.len() == 0 {
        s
    } else {
        let s1 = interp_v(c, s, parts.drop_last());
        match parts.last() {
            StringPart::Interpolation(id) => match self_suffix(id.name@) {
                Some(f) => match c.current_agent {
                    Some(a) => if !c.agents().contains_key(a) {
                        s1
                    } else if c.agents()[a].beliefs@.contains_key(f) {
                        St { used: s1.used.insert(f), ..s1 }
                    } else {
                        push_err(s1, ErrV::UndefinedBelief { name: f, span: id.span })
                    },
                    None => push_err(s1, ErrV::SelfOutsideAgent { span: id.span }),
                },
                None => lookup_v(c, s1, id.name@, id.span).0,
            },
            _ => s1,
        }
    }
}

/// The context check of `try`: errors may propagate only in a fallible
/// function or in an agent with an `on error` handler.
pub open spec fn try_context_v(c: Ctx, s: St, span: Span) -> St {
    if c.in_fallible {
        s
    } else {
        match c.current_agent {
            Some(a) => if !c.agent_has_error_handler {
                push_err(s, ErrV::MissingErrorHandler { agent: a, span })
            } else {
                s
            },
            None => push_err(s, ErrV::TryInNonFallible { span }),
        }
    }
}

/// Field access on a value of type `ot`.
pub open spec fn field_access_v(c: Ctx, s: St, ot: TypeV, field: Seq<char>, span: Span) -> (St, TypeV) {
    match ot {
        TypeV::Named(n) => if c.records().contains_key(n) {
            if c.records()[n].fields@.contains_key(field) {
                (s, c.records()[n].fields@[field]@)
            } else {
                (push_err(s, ErrV::UnknownField { name: field, span }), TypeV::Error)
            }
        } else {
            (push_err(s, ErrV::FieldAccessOnNonRecord { ty: display(ot), span }), TypeV::Error)
        },
        TypeV::Error => (s, TypeV::Error),
        _ => (push_err(s, ErrV::FieldAccessOnNonRecord { ty: display(ot), span }), TypeV::Error),
    }
}

/// Checking expressions left to right, collecting their types.
pub open spec fn exprs_v(c: Ctx, s: St, es: Seq<Expr>) -> (St, Seq<TypeV>)
    decreases es, 0int,
{
    if es.len() == 0 {
        (s, Seq::empty())
    } else {
        let (s1, ts) = exprs_v(c, s, es.drop_last());
        let (s2, t) = expr_v(c, s1, es.last());
        (s2, ts.push(t))
    }
}

/// Checking expressions left to right against expected types: a
/// `TypeMismatch` at each one whose type is not compatible with its
/// expected type.
pub open spec fn args_v(c: Ctx, s: St, es: Seq<Expr>, ts: Seq<TypeV>) -> St
    decreases es, 0int,
{
    if es.len() == 0 {
        s
    } else {
        let s1 = args_v(c, s, es.drop_last(), ts);
        let (s2, t) = expr_v(c, s1, es.last());
        expect_v(s2, ts[es.len() - 1], t, expr_span(es.last()))
    }
}

/// Checking expressions left to right, each against the same expected type.
pub open spec fn same_v(c: Ctx, s: St, es: Seq<Expr>, expected: TypeV) -> St
    decreases es, 0int,
{
    if es.len() == 0 {
        s
    } else {
        let s1 = same_v(c, s, es.drop_last(), expected);
        let (s2, t) = expr_v(c, s1, es.last());
        expect_v(s2, expected, t, expr_span(es.last()))
    }
}

/// A list literal: the first element's type, which the others must match;
/// an empty list has element type `Error`.
pub open spec fn list_v(c: Ctx, s: St, e: Expr) -> (St, TypeV)
    decreases e, 1int,
{
    match e {
        Expr::List { elements, .. } => if elements@.len() == 0 {
            (s, TypeV::List(Box::new(TypeV::Error)))
        } else {
            let (s1, first) = expr_v(c, s, elements@[0]);
            let s2 = same_v(c, s1, elements@.subrange(1, elements@.len() as int), first);
            (s2, TypeV::List(Box::new(first)))
        },
        _ => (s, TypeV::Error),
    }
}

/// Checking field initializers against a declaration's fields: each known
/// field's value must match its type; an unknown field is an error.
pub open spec fn inits_v(c: Ctx, s: St, fs: Seq<FieldInit>, decl: Map<Seq<char>, Type>) -> St
    decreases fs, 0int,
{
    if fs.len() == 0 {
        s
    } else {
        let s1 = inits_v(c, s, fs.drop_last(), decl);
        let f = fs.last();
        if decl.contains_key(f.name.name@) {
            let (s2, t) = expr_v(c, s1, f.value);
            expect_v(s2, decl[f.name.name@]@, t, expr_span(f.value))
        } else {
            push_err(s1, ErrV::UnknownField { name: f.name.name@, span: f.span })
        }
    }
}

/// `MissingBeliefInit` for each belief, in declaration order, that no
/// initializer provides.
pub open spec fn missing_beliefs_v(s: St, beliefs: Seq<(String, Type)>, fs: Seq<FieldInit>, span: Span) -> St
    decreases beliefs.len(),
{
    if beliefs.len() == 0 {
        s
    } else {
        let s1 = missing_beliefs_v(s, beliefs.drop_last(), fs, span);
        let n = beliefs.last().0@;
        if provides(fs, n) {
            s1
        } else {
            push_err(s1, ErrV::MissingBeliefInit { name: n, span })
        }
    }
}

/// `MissingField` for each record field, in declaration order, that no
/// initializer provides.
pub open spec fn missing_fields_v(
    s: St,
    fields: Seq<(String, Type)>,
    fs: Seq<FieldInit>,
    record: Seq<char>,
    span: Span,
) -> St
    decreases fields.len(),
{
    if fields.len() == 0 {
        s
    } else {
        let s1 = missing_fields_v(s, fields.drop_last(), fs, record, span);
        let n = fields.last().0@;
        if provides(fs, n) {
            s1
        } else {
            push_err(s1, ErrV::MissingField { field: n, record, span })
        }
    }
}

/// `spawn Agent { ... }`: the agent must exist, its beliefs be initialized
/// with values of their types; the result is a handle to the agent.
pub open spec fn spawn_v(c: Ctx, s: St, e: Expr) -> (St, TypeV)
    decreases e, 1int,
{
    match e {
        Expr::Spawn { agent, fields, span } => if !c.agents().contains_key(agent.name@) {
            (push_err(s, ErrV::UndefinedAgent { name: agent.name@, span }), TypeV::Error)
        } else {
            let info = c.agents()[agent.name@];
            let s1 = inits_v(c, s, fields@, info.beliefs@);
            let s2 = missing_beliefs_v(s1, info.beliefs.entry_seq(), fields@, span);
            (s2, TypeV::Agent(agent.name@))
        },
        _ => (s, TypeV::Error),
    }
}

/// Record construction: the record must exist and its fields be
/// initialized with values of their types.
pub open spec fn record_v(c: Ctx, s: St, e: Expr) -> (St, TypeV)
    decreases e, 1int,
{
    match e {
        Expr::RecordConstruct { name, fields, span } => if !c.records().contains_key(name.name@) {
            (push_err(s, ErrV::UndefinedType { name: name.name@, span }), TypeV::Error)
        } else {
            let info = c.records()[name.name@];
            let s1 = inits_v(c, s, fields@, info.fields@);
            let s2 = missing_fields_v(s1, info.fields.entry_seq(), fields@, name.name@, span);
            (s2, TypeV::Named(name.name@))
        },
        _ => (s, TypeV::Error),
    }
}

/// Sending a message: a fallible operation to an agent handle; the message
/// must match the agent's message handler.
pub open spec fn send_v(c: Ctx, s: St, e: Expr) -> (St, TypeV)
    decreases e, 1int,
{
    match e {
        Expr::Send { handle, message, span } => {
            let s1 = unhandled_v(c, s, "send"@, span);
            let (s2, ht) = expr_v(c, s1, *handle);
            let (s3, mt) = expr_v(c, s2, *message);
            let s4 = match ht {
                TypeV::Agent(n) => if c.agents().contains_key(n) {
                    match c.agents()[n].message_type {
                        Some(expected) => expect_v(s3, expected@, mt, expr_span(*message)),
                        None => push_err(s3, ErrV::NoMessageHandler { name: n, span }),
                    }
                } else {
                    s3
                },
                TypeV::Error => s3,
                _ => push_err(s3, ErrV::SendNonAgent { ty: display(ht), span }),
            };
            (s4, TypeV::Unit)
        },
        _ => (s, TypeV::Error),
    }
}

/// Whether some arm's pattern is a wildcard or a binding.
pub open spec fn arms_have_wildcard(arms: Seq<MatchArm>) -> bool {
    exists|i: int|
        0 <= i < arms.len() && (#[trigger] arms[i].pattern is Wildcard || arms[i].pattern is Binding)
}

/// The variant a pattern names, if it is a variant pattern.
pub open spec fn pattern_variant(p: Pattern) -> Option<Seq<char>> {
    match p {
        Pattern::Variant { variant, .. } => Some(variant.name@),
        _ => None,
    }
}

/// The boolean a pattern is, if it is a boolean literal.
pub open spec fn pattern_bool(p: Pattern) -> Option<bool> {
    match p {
        Pattern::Literal { value: Literal::Bool(b), .. } => Some(b),
        _ => None,
    }
}

/// Whether some arm's pattern names the variant `v`.
pub open spec fn arms_cover_variant(arms: Seq<MatchArm>, v: Seq<char>) -> bool {
    exists|i: int| 0 <= i < arms.len() && #[trigger] pattern_variant(arms[i].pattern) == Some(v)
}

/// Whether some arm's pattern is the boolean literal `b`.
pub open spec fn arms_cover_bool(arms: Seq<MatchArm>, b: bool) -> bool {
    exists|i: int| 0 <= i < arms.len() && #[trigger] pattern_bool(arms[i].pattern) == Some(b)
}

/// Whether the arms cover every value of the scrutinee type: a wildcard or
/// binding covers all; an enum needs all its variants; `Bool` needs both
/// literals; the error type counts as covered; other types need a wildcard.
pub open spec fn exhaustive(c: Ctx, arms: Seq<MatchArm>, t: TypeV) -> bool {
    arms_have_wildcard(arms) || match t {
        TypeV::Named(n) => c.enums().contains_key(n) && forall|i: int|
            0 <= i < enum_variants(c, n).len() ==> #[trigger] arms_cover_variant(arms, enum_variants(c, n)[i].0@),
        TypeV::Bool => arms_cover_bool(arms, true) && arms_cover_bool(arms, false),
        TypeV::Error => true,
        _ => false,
    }
}

/// Checking match arms in order, each in its own scope: the pattern against
/// the scrutinee type, then the body. The type is the first arm type that is
/// not `Error` (the last arm's type if all are).
pub open spec fn arms_v(c: Ctx, s: St, arms: Seq<MatchArm>, t: TypeV) -> (St, TypeV)
    decreases arms, 0int,
{
    if arms.len() == 0 {
        (s, TypeV::Error)
    } else {
        let (s1, r) = arms_v(c, s, arms.drop_last(), t);
        let arm = arms.last();
        let s2 = pattern_v(c, push_scope_v(s1), arm.pattern, t);
        let (s3, at) = expr_v(c, s2, arm.body);
        (pop_scope_v(s3), if r is Error { at } else { r })
    }
}

/// A `match`: the arms, then a `NonExhaustiveMatch` error unless they cover
/// the scrutinee's type.
pub open spec fn match_v(c: Ctx, s: St, e: Expr) -> (St, TypeV)
    decreases e, 1int,
{
    match e {
        Expr::Match { scrutinee, arms, span } => {
            let (s1, st) = expr_v(c, s, *scrutinee);
            let (s2, r) = arms_v(c, s1, arms@, st);
            if exhaustive(c, arms@, st) {
                (s2, r)
            } else {
                (push_err(s2, ErrV::NonExhaustiveMatch { span }), r)
            }
        },
        _ => (s, TypeV::Error),
    }
}

/// `expr catch [e] { recovery }`: the expression inside error handling, the
/// recovery in a scope binding the error, and the recovery's type must be
/// compatible with the expression's.
pub open spec fn catch_v(c: Ctx, s: St, e: Expr) -> (St, TypeV)
    decreases e, 1int,
{
    match e {
        Expr::Catch { expr, error_bind, recovery, span } => {
            let (s1, et) = expr_v(Ctx { in_error_handling: true, ..c }, s, *expr);
            let s2 = push_scope_v(s1);
            let s3 = match error_bind {
                Some(id) => define_v(s2, id.name@, TypeV::Named("Error"@)),
                None => s2,
            };
            let (s4, rt) = expr_v(c, s3, *recovery);
            let s5 = pop_scope_v(s4);
            if !compatible(rt, et) && !(et is Error) {
                (push_err(s5, ErrV::CatchTypeMismatch { expected: display(et), found: display(rt), span }), et)
            } else {
                (s5, et)
            }
        },
        _ => (s, TypeV::Error),
    }
}

/// Binding closure parameters in the innermost scope; a parameter without a
/// type annotation is an error and gets the error type.
pub open spec fn closure_params_v(s: St, ps: Seq<ClosureParam>) -> (St, Seq<TypeV>)
    decreases ps.len(),
{
    if ps.len() == 0 {
        (s, Seq::empty())
    } else {
        let (s1, ts) = closure_params_v(s, ps.drop_last());
        let p = ps.last();
        let (s2, t) = match p.ty {
            Some(te) => (s1, declared(te)),
            None => (push_err(s1, ErrV::ClosureParamNeedsType { name: p.name.name@, span: p.span }), TypeV::Error),
        };
        (define_v(s2, p.name.name@, t), ts.push(t))
    }
}

/// A closure: its parameters and body in a new scope; a function type.
pub open spec fn closure_v(c: Ctx, s: St, e: Expr) -> (St, TypeV)
    decreases e, 1int,
{
    match e {
        Expr::Closure { params, body, .. } => {
            let (s1, pts) = closure_params_v(push_scope_v(s), params@);
            let (s2, bt) = expr_v(c, s1, *body);
            (pop_scope_v(s2), TypeV::Func(pts, Box::new(bt)))
        },
        _ => (s, TypeV::Error),
    }
}

/// Checking map entries against the first entry's key and value types.
pub open spec fn entries_v(c: Ctx, s: St, es: Seq<MapEntry>, kt: TypeV, vt: TypeV) -> St
    decreases es, 0int,
{
    if es.len() == 0 {
        s
    } else {
        let s1 = entries_v(c, s, es.drop_last(), kt, vt);
        let en = es.last();
        let (s2, k) = expr_v(c, s1, en.key);
        let (s3, v) = expr_v(c, s2, en.value);
        expect_v(expect_v(s3, kt, k, en.span), vt, v, en.span)
    }
}

/// A map literal: the first entry gives the key and value types; an empty
/// literal is an error.
pub open spec fn dict_v(c: Ctx, s: St, e: Expr) -> (St, TypeV)
    decreases e, 1int,
{
    match e {
        Expr::Dict { entries, span } => if entries@.len() == 0 {
            (push_err(s, ErrV::EmptyMapLiteral { span }), TypeV::Error)
        } else {
            let (s1, kt) = expr_v(c, s, entries@[0].key);
            let (s2, vt) = expr_v(c, s1, entries@[0].value);
            let s3 = entries_v(c, s2, entries@.subrange(1, entries@.len() as int), kt, vt);
            (s3, TypeV::Dict(Box::new(kt), Box::new(vt)))
        },
        _ => (s, TypeV::Error),
    }
}

/// `Enum::Variant(payload)`: the enum and variant must exist and the
/// payload match the variant's.
pub open spec fn variant_v(c: Ctx, s: St, e: Expr) -> (St, TypeV)
    decreases e, 1int,
{
    match e {
        Expr::VariantConstruct { enum_name, variant, payload, span } => {
            let en = enum_name.name@;
            let v = variant.name@;
            if !c.enums().contains_key(en) {
                (push_err(s, ErrV::UndefinedType { name: en, span }), TypeV::Error)
            } else if variant_index(enum_variants(c, en), v) < 0 {
                (push_err(s, ErrV::UndefinedEnumVariant { variant: v, enum_name: en, span }), TypeV::Error)
            } else {
                let ep = enum_variants(c, en)[variant_index(enum_variants(c, en), v)].1;
                let s1 = match payload {
                    Some(pe) => match ep {
                        Some(et) => {
                            let (s2, pt) = expr_v(c, s, *pe);
                            if compatible(pt, et@) {
                                s2
                            } else {
                                push_err(s2, ErrV::TypeMismatch { expected: display(et@), found: display(pt), span })
                            }
                        },
                        None => push_err(s, ErrV::TypeMismatch { expected: v, found: v + "(...)"@, span }),
                    },
                    None => match ep {
                        Some(et) => push_err(
                            s,
                            ErrV::TypeMismatch { expected: v + "("@ + display(et@) + ")"@, found: v, span },
                        ),
                        None => s,
                    },
                };
                (s1, TypeV::Named(en))
            }
        },
        _ => (s, TypeV::Error),
    }
}

/// `Tool.function(args)`: the agent must have declared the tool, the tool
/// must exist and have the function, and the arguments match its parameters.
/// In a module of a tree only the arguments are checked, and the call has
/// the error type.
pub open spec fn tool_call_v(c: Ctx, s: St, e: Expr) -> (St, TypeV)
    decreases e, 1int,
{
    match e {
        Expr::ToolCall { tool, function, args, span } => if c.modular {
            (exprs_v(c, s, args@).0, TypeV::Error)
        } else {
            let t = tool.name@;
            let f = function.name@;
            if !c.agent_tools.contains(t) || !c.tools.contains_key(t) {
                (push_err(s, ErrV::UndeclaredToolUse { tool: t, span }), TypeV::Error)
            } else if !c.tools[t].functions.contains_key(f) {
                (push_err(s, ErrV::UndefinedToolFunction { tool: t, function: f, span }), TypeV::Error)
            } else {
                let info = c.tools[t].functions[f];
                if args@.len() != info.params.len() {
                    (
                        push_err(
                            s,
                            ErrV::ToolCallArity {
                                tool: t,
                                function: f,
                                expected: info.params.len(),
                                found: args@.len(),
                                span,
                            },
                        ),
                        TypeV::Error,
                    )
                } else {
                    (args_v(c, s, args@, tool_param_types(info)), info.return_ty)
                }
            }
        },
        _ => (s, TypeV::Error),
    }
}

/// A call by name: a declared function (its arguments must match its
/// parameters; a fallible one needs `try`/`catch`), else a built-in, else
/// an `UndefinedFunction` error. In a module of a tree, a fallible function
/// needs no `try`/`catch`, and a wrong argument count names the function as
/// declared (not as imported).
pub open spec fn call_v(c: Ctx, s: St, e: Expr) -> (St, TypeV)
    decreases e, 1int,
{
    match e {
        Expr::Call { name, args, span } => {
            let n = name.name@;
            if c.functions().contains_key(n) {
                let f = c.functions()[n];
                let s1 = if f.is_fallible && !c.modular {
                    unhandled_v(c, s, n, span)
                } else {
                    s
                };
                if args@.len() != f.params@.len() {
                    (
                        push_err(
                            s1,
                            ErrV::WrongArgCount {
                                name: if c.modular {
                                    f.name@
                                } else {
                                    n
                                },
                                expected: f.params@.len(),
                                found: args@.len(),
                                span,
                            },
                        ),
                        TypeV::Error,
                    )
                } else {
                    (args_v(c, s1, args@, param_types(f.params@)), f.return_type@)
                }
            } else if c.symbols.builtins().contains_key(n) {
                builtin_v(c, s, e)
            } else {
                (push_err(s, ErrV::UndefinedFunction { name: n, span }), TypeV::Error)
            }
        },
        _ => (s, TypeV::Error),
    }
}

/// `WrongArgCount` for a built-in called with the wrong number of arguments.
pub open spec fn arity_err(s: St, n: Seq<char>, expected: nat, found: nat, span: Span) -> (St, TypeV) {
    (push_err(s, ErrV::WrongArgCount { name: n, expected, found, span }), TypeV::Error)
}

/// The error for an argument that should be a map.
pub open spec fn not_map_v(s: St, t: TypeV, span: Span) -> St {
    if t is Error {
        s
    } else {
        push_err(s, ErrV::TypeMismatch { expected: "Map<K, V>"@, found: display(t), span })
    }
}

/// Which rule checks a call of the built-in `n`: `len`, `push`, `str`, the
/// map lookups, `map_set`, the map listings, or the fixed signatures.
pub open spec fn builtin_kind(n: Seq<char>) -> int {
    if n == "len"@ {
        0
    } else if n == "push"@ {
        1
    } else if n == "str"@ {
        2
    } else if n == "map_get"@ || n == "map_delete"@ || n == "map_has"@ {
        3
    } else if n == "map_set"@ {
        4
    } else if n == "map_keys"@ || n == "map_values"@ {
        5
    } else {
        6
    }
}

/// A call of a built-in: the generic collection built-ins are checked by
/// their own rules, the others against their fixed parameter types.
pub open spec fn builtin_v(c: Ctx, s: St, e: Expr) -> (St, TypeV)
    decreases e, 0int,
{
    match e {
        Expr::Call { name, args, span } => {
            let n = name.name@;
            let b = c.symbols.builtin_infos()[n];
            let a = args@;
            if builtin_kind(n) == 0 {
                if a.len() != 1 {
                    arity_err(s, n, 1, a.len(), span)
                } else {
                    let (s1, t) = expr_v(c, s, a[0]);
                    if !(t is List) && !(t is Dict) && !(t is Error) {
                        (
                            push_err(
                                s1,
                                ErrV::TypeMismatch {
                                    expected: "List<T> or Map<K, V>"@,
                                    found: display(t),
                                    span: expr_span(a[0]),
                                },
                            ),
                            TypeV::Int,
                        )
                    } else {
                        (s1, TypeV::Int)
                    }
                }
            } else if builtin_kind(n) == 1 {
                if a.len() != 2 {
                    arity_err(s, n, 2, a.len(), span)
                } else {
                    let (s1, lt) = expr_v(c, s, a[0]);
                    let (s2, et) = expr_v(c, s1, a[1]);
                    match lt {
                        TypeV::List(x) => (expect_v(s2, *x, et, expr_span(a[1])), lt),
                        TypeV::Error => (s2, TypeV::Error),
                        _ => (
                            push_err(s2, ErrV::TypeMismatch { expected: "List<T>"@, found: display(lt), span: expr_span(a[0]) }),
                            TypeV::Error,
                        ),
                    }
                }
            } else if builtin_kind(n) == 2 {
                if a.len() != 1 {
                    arity_err(s, n, 1, a.len(), span)
                } else {
                    (expr_v(c, s, a[0]).0, TypeV::Str)
                }
            } else if builtin_kind(n) == 3 {
                if a.len() != 2 {
                    arity_err(s, n, 2, a.len(), span)
                } else {
                    let (s1, mt) = expr_v(c, s, a[0]);
                    let (s2, kt) = expr_v(c, s1, a[1]);
                    let s3 = match mt {
                        TypeV::Dict(k, _) => expect_v(s2, *k, kt, expr_span(a[1])),
                        _ => not_map_v(s2, mt, expr_span(a[0])),
                    };
                    let r = if n == "map_get"@ {
                        match mt {
                            TypeV::Dict(_, v) => TypeV::Opt(v),
                            _ => TypeV::Error,
                        }
                    } else if n == "map_delete"@ {
                        TypeV::Unit
                    } else {
                        TypeV::Bool
                    };
                    (s3, r)
                }
            } else if builtin_kind(n) == 4 {
                if a.len() != 3 {
                    arity_err(s, n, 3, a.len(), span)
                } else {
                    let (s1, mt) = expr_v(c, s, a[0]);
                    let (s2, kt) = expr_v(c, s1, a[1]);
                    let (s3, vt) = expr_v(c, s2, a[2]);
                    let s4 = match mt {
                        TypeV::Dict(k, v) => expect_v(expect_v(s3, *k, kt, expr_span(a[1])), *v, vt, expr_span(a[2])),
                        _ => not_map_v(s3, mt, expr_span(a[0])),
                    };
                    (s4, TypeV::Unit)
                }
            } else if builtin_kind(n) == 5 {
                if a.len() != 1 {
                    arity_err(s, n, 1, a.len(), span)
                } else {
                    let (s1, mt) = expr_v(c, s, a[0]);
                    match mt {
                        TypeV::Dict(k, v) => (s1, TypeV::List(if n == "map_keys"@ { k } else { v })),
                        _ => (not_map_v(s1, mt, expr_span(a[0])), TypeV::Error),
                    }
                }
            } else {
                match b.params {
                    Some(ps) => if a.len() != ps@.len() {
                        arity_err(s, n, ps@.len(), a.len(), span)
                    } else {
                        (args_v(c, s, a, types_of(ps@)), b.return_type@)
                    },
                    None => (s, b.return_type@),
                }
            }
        },
        _ => (s, TypeV::Error),
    }
}


// =========================================================================
// Statements
// =========================================================================

/// The decimal digits of a number.
pub open spec fn decimal(n: nat) -> Seq<char>
    decreases n,
{
    if n < 10 {
        seq![digit_char(n)]
    } else {
        decimal(n / 10).push(digit_char(n % 10))
    }
}

/// The digit character of a number below ten.
pub open spec fn digit_char(d: nat) -> char {
    if d == 0 { '0' }
    else if d == 1 { '1' }
    else if d == 2 { '2' }
    else if d == 3 { '3' }
    else if d == 4 { '4' }
    else if d == 5 { '5' }
    else if d == 6 { '6' }
    else if d == 7 { '7' }
    else if d == 8 { '8' }
    else { '9' }
}

/// A `NonBoolCondition` error unless the condition type is compatible with `Bool`.
pub open spec fn cond_v(s: St, t: TypeV, span: Span) -> St {
    if compatible(t, TypeV::Bool) {
        s
    } else {
        push_err(s, ErrV::NonBoolCondition { found: display(t), span })
    }
}

/// A body in its own scope.
pub open spec fn scoped_block_v(c: Ctx, s: St, b: Block) -> St
    decreases b, 1int,
{
    pop_scope_v(block_v(c, push_scope_v(s), b.stmts@))
}

/// A loop body: in its own scope, inside a loop; afterwards the loop flag is
/// as before.
pub open spec fn loop_body_v(c: Ctx, s: St, b: Block) -> St
    decreases b, 1int,
{
    let s1 = block_v(c, St { in_loop: true, ..push_scope_v(s) }, b.stmts@);
    St { in_loop: s.in_loop, ..pop_scope_v(s1) }
}

/// Bind names to types, in order.
pub open spec fn bind_all_v(s: St, names: Seq<Ident>, ts: Seq<TypeV>) -> St
    decreases names.len(),
{
    if names.len() == 0 {
        s
    } else {
        define_v(bind_all_v(s, names.drop_last(), ts), names.last().name@, ts[names.len() - 1])
    }
}

/// The element type of iterating over a value of type `t`: a list yields
/// its elements, a map its `(key, value)` pairs.
pub open spec fn iter_elem(t: TypeV) -> Option<TypeV> {
    match t {
        TypeV::List(e) => Some(*e),
        TypeV::Dict(k, v) => Some(TypeV::Tuple(seq![*k, *v])),
        _ => None,
    }
}

/// Checking a statement.
pub open spec fn stmt_v(c: Ctx, s: St, st: Stmt) -> St
    decreases st, 2int,
{
    match st {
        Stmt::Let { name, ty, value, .. } => {
            let (s1, vt) = expr_v(c, s, value);
            match ty {
                Some(te) => define_v(expect_v(s1, declared(te), vt, expr_span(value)), name.name@, declared(te)),
                None => define_v(s1, name.name@, vt),
            }
        },
        Stmt::Assign { name, value, span } => {
            let (s1, expected) = lookup_v(c, s, name.name@, name.span);
            let (s2, actual) = expr_v(c, s1, value);
            expect_v(s2, expected, actual, span)
        },
        Stmt::Return { value, span } => if !c.in_function {
            push_err(s, ErrV::ReturnOutsideFunction { span })
        } else {
            let (s1, rt) = match value {
                Some(e) => expr_v(c, s, e),
                None => (s, TypeV::Unit),
            };
            match c.expected_return {
                Some(expected) => expect_v(s1, expected, rt, span),
                None => s1,
            }
        },
        Stmt::If { condition, then_block, else_block, span } => {
            let (s1, ct) = expr_v(c, s, condition);
            let s2 = scoped_block_v(c, cond_v(s1, ct, span), then_block);
            match else_block {
                None => s2,
                Some(ElseBranch::Block(b)) => scoped_block_v(c, s2, b),
                Some(ElseBranch::ElseIf(inner)) => stmt_v(c, s2, *inner),
            }
        },
        Stmt::For { pattern, iter, body, span } => {
            let (s1, it) = expr_v(c, s, iter);
            let (s2, elem) = match iter_elem(it) {
                Some(e) => (s1, e),
                None => (
                    if it is Error {
                        s1
                    } else {
                        push_err(s1, ErrV::NotIterable { ty: display(it), span })
                    },
                    TypeV::Error,
                ),
            };
            let s3 = pattern_v(c, St { in_loop: true, ..push_scope_v(s2) }, pattern, elem);
            let s4 = block_v(c, s3, body.stmts@);
            St { in_loop: s2.in_loop, ..pop_scope_v(s4) }
        },
        Stmt::While { condition, body, span } => {
            let (s1, ct) = expr_v(c, s, condition);
            loop_body_v(c, cond_v(s1, ct, span), body)
        },
        Stmt::Loop { body, .. } => loop_body_v(c, s, body),
        Stmt::Break { span } => if s.in_loop {
            s
        } else {
            push_err(s, ErrV::BreakOutsideLoop { span })
        },
        Stmt::Expr { expr, .. } => expr_v(c, s, expr).0,
        Stmt::LetTuple { names, ty, value, span } => {
            let (s1, vt) = expr_v(c, s, value);
            let errors = Seq::new(names@.len(), |i: int| TypeV::Error);
            let s2 = match vt {
                TypeV::Tuple(ts) => if names@.len() != ts.len() {
                    push_err(s1, ErrV::TupleArityMismatch { expected: names@.len(), found: ts.len(), span })
                } else {
                    bind_all_v(s1, names@, ts)
                },
                TypeV::Error => bind_all_v(s1, names@, errors),
                _ => bind_all_v(
                    push_err(
                        s1,
                        ErrV::TypeMismatch {
                            expected: "tuple with "@ + decimal(names@.len()) + " elements"@,
                            found: display(vt),
                            span,
                        },
                    ),
                    names@,
                    errors,
                ),
            };
            match ty {
                Some(te) => expect_v(s2, declared(te), vt, span),
                None => s2,
            }
        },
    }
}

/// Checking statements in order.
pub open spec fn block_v(c: Ctx, s: St, stmts: Seq<Stmt>) -> St
    decreases stmts, 0int,
{
    if stmts.len() == 0 {
        s
    } else {
        stmt_v(c, block_v(c, s, stmts.drop_last()), stmts.last())
    }
}

/// Whether an expression is a constant expression: a literal, or a unary
/// operator or parentheses around one.
pub open spec fn is_const(e: Expr) -> bool
    decreases e,
{
    match e {
        Expr::Literal { .. } => true,
        Expr::Unary { operand, .. } => is_const(*operand),
        Expr::Paren { inner, .. } => is_const(*inner),
        _ => false,
    }
}


// =========================================================================
// Declarations
// =========================================================================

/// Whether some handler reacts to errors.
pub open spec fn has_error_handler(hs: Seq<HandlerDecl>) -> bool {
    exists|i: int| 0 <= i < hs.len() && (#[trigger] hs[i]).event is Error
}

/// Whether some handler reacts to the start event.
pub open spec fn has_start(hs: Seq<HandlerDecl>) -> bool {
    exists|i: int| 0 <= i < hs.len() && (#[trigger] hs[i]).event is Start
}

/// The parameter type of the first message handler, if there is one.
pub open spec fn first_message_type(hs: Seq<HandlerDecl>) -> Option<TypeV>
    decreases hs.len(),
{
    if hs.len() == 0 {
        None
    } else {
        match first_message_type(hs.drop_last()) {
            Some(t) => Some(t),
            None => match hs.last().event {
                EventKind::Message { param_ty, .. } => Some(declared(param_ty)),
                _ => None,
            },
        }
    }
}

/// The context for checking the handlers of an agent.
pub open spec fn agent_ctx(c: Ctx, a: AgentDecl) -> Ctx {
    Ctx {
        current_agent: Some(a.name.name@),
        receives: match a.receives {
            Some(t) => Some(declared(t)),
            None => None,
        },
        agent_has_error_handler: has_error_handler(a.handlers@),
        ..c
    }
}

/// The context after checking an agent.
pub open spec fn after_agent(c: Ctx) -> Ctx {
    Ctx { current_agent: None, receives: None, agent_has_error_handler: false, ..c }
}

/// Checking a handler: its body in a scope binding the message or error
/// parameter.
pub open spec fn handler_v(c: Ctx, s: St, h: HandlerDecl) -> St {
    let s1 = push_scope_v(s);
    let s2 = match h.event {
        EventKind::Message { param_name, param_ty } => define_v(s1, param_name.name@, declared(param_ty)),
        EventKind::Error { param_name } => define_v(s1, param_name.name@, TypeV::Named("Error"@)),
        _ => s1,
    };
    pop_scope_v(block_v(c, s2, h.body.stmts@))
}

/// Checking handlers in order.
pub open spec fn handlers_v(c: Ctx, s: St, hs: Seq<HandlerDecl>) -> St
    decreases hs.len(),
{
    if hs.len() == 0 {
        s
    } else {
        handler_v(c, handlers_v(c, s, hs.drop_last()), hs.last())
    }
}

/// An `UnusedBelief` warning for each belief that no handler read.
pub open spec fn unused_v(s: St, bs: Seq<BeliefDecl>) -> St
    decreases bs.len(),
{
    if bs.len() == 0 {
        s
    } else {
        let s1 = unused_v(s, bs.drop_last());
        if s1.used.contains(bs.last().name.name@) {
            s1
        } else {
            push_err(s1, ErrV::UnusedBelief { name: bs.last().name.name@, span: bs.last().span })
        }
    }
}

/// Checking an agent: its handlers, with no beliefs read at first, then the
/// beliefs that were never read.
pub open spec fn agent_v(c: Ctx, s: St, a: AgentDecl) -> St {
    let s1 = handlers_v(agent_ctx(c, a), St { used: Set::empty(), ..s }, a.handlers@);
    unused_v(s1, a.beliefs@)
}

/// The context for checking the body of a function.
pub open spec fn fn_ctx(c: Ctx, f: FnDecl) -> Ctx {
    Ctx {
        in_function: true,
        expected_return: Some(declared(f.return_ty)),
        in_fallible: f.is_fallible,
        ..c
    }
}

/// The context after checking a function.
pub open spec fn after_function(c: Ctx) -> Ctx {
    Ctx { in_function: false, expected_return: None, in_fallible: false, ..c }
}

/// Binding function parameters, in order.
pub open spec fn params_v(s: St, ps: Seq<Param>) -> St
    decreases ps.len(),
{
    if ps.len() == 0 {
        s
    } else {
        define_v(params_v(s, ps.drop_last()), ps.last().name.name@, declared(ps.last().ty))
    }
}

/// Checking a function: its body in a scope binding its parameters.
pub open spec fn function_v(c: Ctx, s: St, f: FnDecl) -> St {
    pop_scope_v(block_v(fn_ctx(c, f), params_v(push_scope_v(s), f.params@), f.body.stmts@))
}

/// Checking a constant: the value must match the declared type and be a
/// constant expression.
pub open spec fn const_v(c: Ctx, s: St, d: ConstDecl) -> St {
    let (s1, vt) = expr_v(c, s, d.value);
    let s2 = expect_v(s1, declared(d.ty), vt, expr_span(d.value));
    if is_const(d.value) {
        s2
    } else {
        push_err(
            s2,
            ErrV::TypeMismatch {
                expected: "constant expression"@,
                found: "non-constant expression"@,
                span: expr_span(d.value),
            },
        )
    }
}

/// The entry agent named by `run` must exist, have no beliefs and have an
/// `on start` handler.
pub open spec fn entry_v(c: Ctx, s: St, p: Program) -> St {
    match p.run_agent {
        None => s,
        Some(r) => if !c.symbols.agents().contains_key(r.name@) {
            push_err(s, ErrV::UndefinedAgent { name: r.name@, span: r.span })
        } else {
            let a = c.symbols.agents()[r.name@];
            let s1 = if a.beliefs@.dom().len() > 0 {
                push_err(s, ErrV::EntryAgentHasBeliefs { name: r.name@, span: r.span })
            } else {
                s
            };
            if a.has_start_handler {
                s1
            } else {
                push_err(s1, ErrV::EntryAgentNoStart { name: r.name@, span: r.span })
            }
        },
    }
}

/// Checking agents in order.
pub open spec fn agents_v(c: Ctx, s: St, ags: Seq<AgentDecl>) -> St
    decreases ags.len(),
{
    if ags.len() == 0 {
        s
    } else {
        agent_v(c, agents_v(c, s, ags.drop_last()), ags.last())
    }
}

/// Checking functions in order.
pub open spec fn functions_v(c: Ctx, s: St, fs: Seq<FnDecl>) -> St
    decreases fs.len(),
{
    if fs.len() == 0 {
        s
    } else {
        function_v(c, functions_v(c, s, fs.drop_last()), fs.last())
    }
}

/// Checking constants in order.
pub open spec fn consts_v(c: Ctx, s: St, ds: Seq<ConstDecl>) -> St
    decreases ds.len(),
{
    if ds.len() == 0 {
        s
    } else {
        const_v(c, consts_v(c, s, ds.drop_last()), ds.last())
    }
}

/// Checking the agents, then the functions, of a program.
pub open spec fn module_bodies_v(c: Ctx, s: St, p: Program) -> St {
    functions_v(c, agents_v(c, s, p.agents@), p.functions@)
}

/// The second pass over a program whose declarations are in the context:
/// agents, then functions, then constants, then the entry agent.
pub open spec fn bodies_v(c: Ctx, s: St, p: Program) -> St {
    entry_v(c, consts_v(c, module_bodies_v(c, s, p), p.consts@), p)
}

} // verus!
