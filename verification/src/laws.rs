//! Laws of checking: an error once reported is never retracted, and
//! checking an expression, a statement or a declaration leaves the stack of
//! scopes as deep as it found it.

use vstd::prelude::*;
use crate::ast::Expr;
use crate::builtins::spec_builtins;
use crate::scope::SymbolTable;
use crate::scope::AgentInfo;
use crate::scope::SupervisorInfo;
use crate::scope::ProtocolInfo;
use crate::scope::EffectHandlerInfo;
use crate::scope::FunctionInfo;
use crate::scope::RecordInfo;
use crate::scope::EnumInfo;
use crate::scope::ConstInfo;
use crate::ast::FieldInit;
use crate::ast::MapEntry;
use crate::ast::MatchArm;
use crate::ast::ClosureParam;
use crate::ast::Pattern;
use crate::ast::Program;
use crate::ast::Stmt;
use crate::ast::Block;
use crate::ast::ElseBranch;
use crate::ast::Ident;
use crate::ast::StringPart;
use crate::ast::AgentDecl;
use crate::ast::BeliefDecl;
use crate::ast::ConstDecl;
use crate::ast::FnDecl;
use crate::ast::HandlerDecl;
use crate::ast::Param;
use crate::ast::Span;
use crate::checker::Ctx;
use crate::error::ErrV;
use crate::checker::St;
use crate::checker::push_scope_v;
use crate::checker::pop_scope_v;
use crate::checker::define_v;
use crate::checker::lookup_v;
use crate::checker::binary_v;
use crate::checker::unary_v;
use crate::checker::pattern_v;
use crate::checker::variant_pattern_v;
use crate::checker::patterns_v;
use crate::checker::variant_names_v;
use crate::checker::program_st;
use crate::checker::initial_st;
use crate::checker::program_ctx;
use crate::checker::agent_module;
use crate::checker::function_module;
use crate::checker::record_module;
use crate::checker::enum_module;
use crate::checker::const_module;
use crate::modules::ImportsV;
use crate::modules::ParsedModule;
use crate::modules::glob_names;
use crate::modules::glob_v;
use crate::modules::agent_pubs;
use crate::modules::function_pubs;
use crate::modules::record_pubs;
use crate::modules::enum_pubs;
use crate::modules::const_pubs;
use crate::modules::verify_import_v;
use crate::modules::collect_tree;
use crate::modules::tree_errors;
use crate::modules::import_errors;
use crate::modules::bodies_tree;
use crate::modules::tree_entry_v;
use crate::decls::collect_errors;
use crate::types::Type;
use crate::types::TypeV;
use crate::rules::expr_v;
use crate::rules::expect_v;
use crate::rules::unhandled_v;
use crate::rules::self_field_v;
use crate::rules::interp_v;
use crate::rules::try_context_v;
use crate::rules::field_access_v;
use crate::rules::exprs_v;
use crate::rules::args_v;
use crate::rules::same_v;
use crate::rules::list_v;
use crate::rules::inits_v;
use crate::rules::missing_beliefs_v;
use crate::rules::missing_fields_v;
use crate::rules::spawn_v;
use crate::rules::record_v;
use crate::rules::send_v;
use crate::rules::arms_v;
use crate::rules::match_v;
use crate::rules::catch_v;
use crate::rules::closure_params_v;
use crate::rules::closure_v;
use crate::rules::entries_v;
use crate::rules::dict_v;
use crate::rules::variant_v;
use crate::rules::tool_call_v;
use crate::rules::call_v;
use crate::rules::not_map_v;
use crate::rules::builtin_kind;
use crate::rules::builtin_v;
use crate::rules::cond_v;
use crate::rules::scoped_block_v;
use crate::rules::loop_body_v;
use crate::rules::bind_all_v;
use crate::rules::stmt_v;
use crate::rules::block_v;
use crate::rules::handler_v;
use crate::rules::handlers_v;
use crate::rules::unused_v;
use crate::rules::agent_v;
use crate::rules::agent_ctx;
use crate::rules::fn_ctx;
use crate::rules::params_v;
use crate::rules::function_v;
use crate::rules::const_v;
use crate::rules::entry_v;
use crate::rules::agents_v;
use crate::rules::functions_v;
use crate::rules::consts_v;
use crate::rules::bodies_v;

verus! {

/// `b` starts with the errors of `a` and has as many scopes.
pub open spec fn extends(a: St, b: St) -> bool {
    &&& a.errors.len() <= b.errors.len()
    &&& forall|i: int| 0 <= i < a.errors.len() ==> #[trigger] b.errors[i] == a.errors[i]
    &&& b.scopes.len() == a.scopes.len()
}

/// Extending is transitive.
proof fn lemma_trans(a: St, b: St, c: St)
    requires
        extends(a, b),
        extends(b, c),
    ensures
        extends(a, c),
{
    assert forall|i: int| 0 <= i < a.errors.len() implies #[trigger] c.errors[i] == a.errors[i] by {
        assert(c.errors[i] == b.errors[i]);
    }
}

/// Entering a scope, extending, and leaving it extends.
proof fn lemma_scoped(s: St, x: St)
    requires
        extends(push_scope_v(s), x),
    ensures
        extends(s, pop_scope_v(x)),
{
}

/// Checking a pattern only binds variables and reports errors.
proof fn lemma_pattern(c: Ctx, s: St, p: Pattern, t: TypeV)
    ensures
        extends(s, pattern_v(c, s, p, t)),
    decreases p, 1int,
{
    match p {
        Pattern::Variant { .. } => lemma_variant_pattern(c, s, p, t),
        Pattern::Tuple { elements, .. } => match t {
            TypeV::Tuple(ts) => if elements@.len() == ts.len() {
                lemma_patterns(c, s, elements@, ts);
            },
            _ => {},
        },
        _ => {},
    }
}

proof fn lemma_variant_pattern(c: Ctx, s: St, p: Pattern, t: TypeV)
    ensures
        extends(s, variant_pattern_v(c, s, p, t)),
    decreases p, 0int,
{
    match p {
        Pattern::Variant { enum_name, variant, payload, span } => if !(t is Error) {
            let (s1, stop) = variant_names_v(c, s, enum_name, variant.name@, span, t);
            assert(extends(s, s1));
            if !stop {
                let lookup = match enum_name {
                    Some(e) => Some(e.name@),
                    None => crate::checker::named_of(t),
                };
                if let Some(ln) = lookup {
                    if crate::checker::has_variant_v(c, ln, variant.name@) {
                        let vs = crate::checker::enum_variants(c, ln);
                        let ep = vs[crate::scope::variant_index(vs, variant.name@)].1;
                        if let Some(inner) = payload {
                            if let Some(pt) = ep {
                                lemma_pattern(c, s1, *inner, pt@);
                                lemma_trans(s, s1, pattern_v(c, s1, *inner, pt@));
                            }
                        }
                    }
                }
            }
        },
        _ => {},
    }
}

proof fn lemma_patterns(c: Ctx, s: St, ps: Seq<Pattern>, ts: Seq<TypeV>)
    ensures
        extends(s, patterns_v(c, s, ps, ts)),
    decreases ps,
{
    if ps.len() > 0 {
        lemma_patterns(c, s, ps.drop_last(), ts);
        let s1 = patterns_v(c, s, ps.drop_last(), ts);
        lemma_pattern(c, s1, ps.last(), ts[ps.len() - 1]);
        lemma_trans(s, s1, patterns_v(c, s, ps, ts));
    }
}


/// Checking the interpolations of a string only marks beliefs and reports errors.
proof fn lemma_interp(c: Ctx, s: St, parts: Seq<StringPart>)
    ensures
        extends(s, interp_v(c, s, parts)),
    decreases parts.len(),
{
    if parts.len() > 0 {
        lemma_interp(c, s, parts.drop_last());
        lemma_trans(s, interp_v(c, s, parts.drop_last()), interp_v(c, s, parts));
    }
}

proof fn lemma_missing_beliefs(s: St, bs: Seq<(String, Type)>, fs: Seq<FieldInit>, span: Span)
    ensures
        extends(s, missing_beliefs_v(s, bs, fs, span)),
    decreases bs.len(),
{
    if bs.len() > 0 {
        lemma_missing_beliefs(s, bs.drop_last(), fs, span);
        lemma_trans(s, missing_beliefs_v(s, bs.drop_last(), fs, span), missing_beliefs_v(s, bs, fs, span));
    }
}

proof fn lemma_missing_fields(s: St, bs: Seq<(String, Type)>, fs: Seq<FieldInit>, record: Seq<char>, span: Span)
    ensures
        extends(s, missing_fields_v(s, bs, fs, record, span)),
    decreases bs.len(),
{
    if bs.len() > 0 {
        lemma_missing_fields(s, bs.drop_last(), fs, record, span);
        lemma_trans(
            s,
            missing_fields_v(s, bs.drop_last(), fs, record, span),
            missing_fields_v(s, bs, fs, record, span),
        );
    }
}

proof fn lemma_closure_params(s: St, ps: Seq<ClosureParam>)
    ensures
        extends(s, closure_params_v(s, ps).0),
    decreases ps.len(),
{
    if ps.len() > 0 {
        lemma_closure_params(s, ps.drop_last());
        lemma_trans(s, closure_params_v(s, ps.drop_last()).0, closure_params_v(s, ps).0);
    }
}

/// Checking an expression never retracts an error and leaves the scopes as
/// deep as it found them.
pub proof fn law_expr_keeps_errors(c: Ctx, s: St, e: Expr)
    ensures
        extends(s, expr_v(c, s, e).0),
    decreases e, 2int,
{
    match e {
        Expr::List { .. } => lemma_list(c, s, e),
        Expr::Binary { left, right, .. } => {
            law_expr_keeps_errors(c, s, *left);
            let s1 = expr_v(c, s, *left).0;
            law_expr_keeps_errors(c, s1, *right);
            let s2 = expr_v(c, s1, *right).0;
            lemma_trans(s, s1, s2);
            lemma_trans(s, s2, expr_v(c, s, e).0);
        },
        Expr::Unary { operand, .. } => {
            law_expr_keeps_errors(c, s, *operand);
            lemma_trans(s, expr_v(c, s, *operand).0, expr_v(c, s, e).0);
        },
        Expr::Call { .. } => lemma_call(c, s, e),
        Expr::Spawn { .. } => lemma_spawn(c, s, e),
        Expr::Await { handle, span } => {
            law_expr_keeps_errors(c, s, *handle);
            let s1 = expr_v(c, s, *handle).0;
            lemma_trans(s, s1, unhandled_v(c, s1, "await"@, span));
            lemma_trans(s, unhandled_v(c, s1, "await"@, span), expr_v(c, s, e).0);
        },
        Expr::Send { .. } => lemma_send(c, s, e),
        Expr::Emit { value, .. } => {
            law_expr_keeps_errors(c, s, *value);
            lemma_trans(s, expr_v(c, s, *value).0, expr_v(c, s, e).0);
        },
        Expr::Paren { inner, .. } => law_expr_keeps_errors(c, s, *inner),
        Expr::StringInterp { template, .. } => lemma_interp(c, s, template.parts@),
        Expr::Match { .. } => lemma_match(c, s, e),
        Expr::RecordConstruct { .. } => lemma_record(c, s, e),
        Expr::FieldAccess { object, field, span } => {
            law_expr_keeps_errors(c, s, *object);
            let (s1, ot) = expr_v(c, s, *object);
            lemma_trans(s, s1, field_access_v(c, s1, ot, field.name@, span).0);
        },
        Expr::Try { expr, span } => {
            let s1 = try_context_v(c, s, span);
            law_expr_keeps_errors(Ctx { in_error_handling: true, ..c }, s1, *expr);
            lemma_trans(s, s1, expr_v(Ctx { in_error_handling: true, ..c }, s1, *expr).0);
        },
        Expr::Catch { .. } => lemma_catch(c, s, e),
        Expr::Closure { .. } => lemma_closure(c, s, e),
        Expr::Tuple { elements, .. } => lemma_exprs(c, s, elements@),
        Expr::TupleIndex { tuple, .. } => {
            law_expr_keeps_errors(c, s, *tuple);
            lemma_trans(s, expr_v(c, s, *tuple).0, expr_v(c, s, e).0);
        },
        Expr::Dict { .. } => lemma_dict(c, s, e),
        Expr::VariantConstruct { .. } => lemma_variant(c, s, e),
        Expr::ToolCall { .. } => lemma_tool_call(c, s, e),
        _ => {},
    }
}

proof fn lemma_exprs(c: Ctx, s: St, es: Seq<Expr>)
    ensures
        extends(s, exprs_v(c, s, es).0),
    decreases es, 0int,
{
    if es.len() > 0 {
        lemma_exprs(c, s, es.drop_last());
        let s1 = exprs_v(c, s, es.drop_last()).0;
        law_expr_keeps_errors(c, s1, es.last());
        lemma_trans(s, s1, expr_v(c, s1, es.last()).0);
    }
}

proof fn lemma_args(c: Ctx, s: St, es: Seq<Expr>, ts: Seq<TypeV>)
    ensures
        extends(s, args_v(c, s, es, ts)),
    decreases es, 0int,
{
    if es.len() > 0 {
        lemma_args(c, s, es.drop_last(), ts);
        let s1 = args_v(c, s, es.drop_last(), ts);
        law_expr_keeps_errors(c, s1, es.last());
        let s2 = expr_v(c, s1, es.last()).0;
        lemma_trans(s, s1, s2);
        lemma_trans(s, s2, args_v(c, s, es, ts));
    }
}

proof fn lemma_same(c: Ctx, s: St, es: Seq<Expr>, t: TypeV)
    ensures
        extends(s, same_v(c, s, es, t)),
    decreases es, 0int,
{
    if es.len() > 0 {
        lemma_same(c, s, es.drop_last(), t);
        let s1 = same_v(c, s, es.drop_last(), t);
        law_expr_keeps_errors(c, s1, es.last());
        let s2 = expr_v(c, s1, es.last()).0;
        lemma_trans(s, s1, s2);
        lemma_trans(s, s2, same_v(c, s, es, t));
    }
}

proof fn lemma_inits(c: Ctx, s: St, fs: Seq<FieldInit>, decl: Map<Seq<char>, Type>)
    ensures
        extends(s, inits_v(c, s, fs, decl)),
    decreases fs, 0int,
{
    if fs.len() > 0 {
        lemma_inits(c, s, fs.drop_last(), decl);
        let s1 = inits_v(c, s, fs.drop_last(), decl);
        if decl.contains_key(fs.last().name.name@) {
            law_expr_keeps_errors(c, s1, fs.last().value);
            let s2 = expr_v(c, s1, fs.last().value).0;
            lemma_trans(s, s1, s2);
            lemma_trans(s, s2, inits_v(c, s, fs, decl));
        } else {
            lemma_trans(s, s1, inits_v(c, s, fs, decl));
        }
    }
}

proof fn lemma_entries(c: Ctx, s: St, es: Seq<MapEntry>, kt: TypeV, vt: TypeV)
    ensures
        extends(s, entries_v(c, s, es, kt, vt)),
    decreases es, 0int,
{
    if es.len() > 0 {
        lemma_entries(c, s, es.drop_last(), kt, vt);
        let s1 = entries_v(c, s, es.drop_last(), kt, vt);
        law_expr_keeps_errors(c, s1, es.last().key);
        let s2 = expr_v(c, s1, es.last().key).0;
        law_expr_keeps_errors(c, s2, es.last().value);
        let s3 = expr_v(c, s2, es.last().value).0;
        lemma_trans(s, s1, s2);
        lemma_trans(s, s2, s3);
        lemma_trans(s, s3, entries_v(c, s, es, kt, vt));
    }
}

proof fn lemma_arms(c: Ctx, s: St, arms: Seq<MatchArm>, t: TypeV)
    ensures
        extends(s, arms_v(c, s, arms, t).0),
    decreases arms, 0int,
{
    if arms.len() > 0 {
        lemma_arms(c, s, arms.drop_last(), t);
        let s1 = arms_v(c, s, arms.drop_last(), t).0;
        let arm = arms.last();
        lemma_pattern(c, push_scope_v(s1), arm.pattern, t);
        let s2 = pattern_v(c, push_scope_v(s1), arm.pattern, t);
        law_expr_keeps_errors(c, s2, arm.body);
        let s3 = expr_v(c, s2, arm.body).0;
        lemma_trans(push_scope_v(s1), s2, s3);
        lemma_scoped(s1, s3);
        lemma_trans(s, s1, pop_scope_v(s3));
    }
}

proof fn lemma_list(c: Ctx, s: St, e: Expr)
    ensures
        extends(s, list_v(c, s, e).0),
    decreases e, 1int,
{
    if let Expr::List { elements, .. } = e {
        if elements@.len() > 0 {
            law_expr_keeps_errors(c, s, elements@[0]);
            let (s1, first) = expr_v(c, s, elements@[0]);
            lemma_same(c, s1, elements@.subrange(1, elements@.len() as int), first);
            lemma_trans(s, s1, same_v(c, s1, elements@.subrange(1, elements@.len() as int), first));
        }
    }
}

proof fn lemma_spawn(c: Ctx, s: St, e: Expr)
    ensures
        extends(s, spawn_v(c, s, e).0),
    decreases e, 1int,
{
    if let Expr::Spawn { agent, fields, span } = e {
        if c.agents().contains_key(agent.name@) {
            let info = c.agents()[agent.name@];
            lemma_inits(c, s, fields@, info.beliefs@);
            let s1 = inits_v(c, s, fields@, info.beliefs@);
            lemma_missing_beliefs(s1, info.beliefs.entry_seq(), fields@, span);
            lemma_trans(s, s1, missing_beliefs_v(s1, info.beliefs.entry_seq(), fields@, span));
        }
    }
}

proof fn lemma_record(c: Ctx, s: St, e: Expr)
    ensures
        extends(s, record_v(c, s, e).0),
    decreases e, 1int,
{
    if let Expr::RecordConstruct { name, fields, span } = e {
        if c.records().contains_key(name.name@) {
            let info = c.records()[name.name@];
            lemma_inits(c, s, fields@, info.fields@);
            let s1 = inits_v(c, s, fields@, info.fields@);
            lemma_missing_fields(s1, info.fields.entry_seq(), fields@, name.name@, span);
            lemma_trans(s, s1, missing_fields_v(s1, info.fields.entry_seq(), fields@, name.name@, span));
        }
    }
}

proof fn lemma_send(c: Ctx, s: St, e: Expr)
    ensures
        extends(s, send_v(c, s, e).0),
    decreases e, 1int,
{
    if let Expr::Send { handle, message, span } = e {
        let s1 = unhandled_v(c, s, "send"@, span);
        law_expr_keeps_errors(c, s1, *handle);
        let s2 = expr_v(c, s1, *handle).0;
        law_expr_keeps_errors(c, s2, *message);
        let s3 = expr_v(c, s2, *message).0;
        lemma_trans(s, s1, s2);
        lemma_trans(s, s2, s3);
        lemma_trans(s, s3, send_v(c, s, e).0);
    }
}

proof fn lemma_match(c: Ctx, s: St, e: Expr)
    ensures
        extends(s, match_v(c, s, e).0),
    decreases e, 1int,
{
    if let Expr::Match { scrutinee, arms, .. } = e {
        law_expr_keeps_errors(c, s, *scrutinee);
        let (s1, st) = expr_v(c, s, *scrutinee);
        lemma_arms(c, s1, arms@, st);
        let s2 = arms_v(c, s1, arms@, st).0;
        lemma_trans(s, s1, s2);
        lemma_trans(s, s2, match_v(c, s, e).0);
    }
}

proof fn lemma_catch(c: Ctx, s: St, e: Expr)
    ensures
        extends(s, catch_v(c, s, e).0),
    decreases e, 1int,
{
    if let Expr::Catch { expr, error_bind, recovery, .. } = e {
        let ce = Ctx { in_error_handling: true, ..c };
        law_expr_keeps_errors(ce, s, *expr);
        let s1 = expr_v(ce, s, *expr).0;
        let s2 = push_scope_v(s1);
        let s3 = match error_bind {
            Some(id) => define_v(s2, id.name@, TypeV::Named("Error"@)),
            None => s2,
        };
        law_expr_keeps_errors(c, s3, *recovery);
        let s4 = expr_v(c, s3, *recovery).0;
        lemma_trans(s2, s3, s4);
        lemma_scoped(s1, s4);
        lemma_trans(s, s1, pop_scope_v(s4));
        lemma_trans(s, pop_scope_v(s4), catch_v(c, s, e).0);
    }
}

proof fn lemma_closure(c: Ctx, s: St, e: Expr)
    ensures
        extends(s, closure_v(c, s, e).0),
    decreases e, 1int,
{
    if let Expr::Closure { params, body, .. } = e {
        lemma_closure_params(push_scope_v(s), params@);
        let s1 = closure_params_v(push_scope_v(s), params@).0;
        law_expr_keeps_errors(c, s1, *body);
        let s2 = expr_v(c, s1, *body).0;
        lemma_trans(push_scope_v(s), s1, s2);
        lemma_scoped(s, s2);
    }
}

proof fn lemma_dict(c: Ctx, s: St, e: Expr)
    ensures
        extends(s, dict_v(c, s, e).0),
    decreases e, 1int,
{
    if let Expr::Dict { entries, .. } = e {
        if entries@.len() > 0 {
            law_expr_keeps_errors(c, s, entries@[0].key);
            let (s1, kt) = expr_v(c, s, entries@[0].key);
            law_expr_keeps_errors(c, s1, entries@[0].value);
            let (s2, vt) = expr_v(c, s1, entries@[0].value);
            lemma_entries(c, s2, entries@.subrange(1, entries@.len() as int), kt, vt);
            lemma_trans(s, s1, s2);
            lemma_trans(s, s2, entries_v(c, s2, entries@.subrange(1, entries@.len() as int), kt, vt));
        }
    }
}

proof fn lemma_variant(c: Ctx, s: St, e: Expr)
    ensures
        extends(s, variant_v(c, s, e).0),
    decreases e, 1int,
{
    if let Expr::VariantConstruct { payload, .. } = e {
        if let Some(pe) = payload {
            law_expr_keeps_errors(c, s, *pe);
        }
    }
}

proof fn lemma_tool_call(c: Ctx, s: St, e: Expr)
    ensures
        extends(s, tool_call_v(c, s, e).0),
    decreases e, 1int,
{
    if let Expr::ToolCall { tool, function, args, .. } = e {
        let t = tool.name@;
        let f = function.name@;
        if c.modular {
            lemma_exprs(c, s, args@);
        } else if c.agent_tools.contains(t) && c.tools.contains_key(t) && c.tools[t].functions.contains_key(f) {
            let info = c.tools[t].functions[f];
            lemma_args(c, s, args@, crate::rules::tool_param_types(info));
        }
    }
}

proof fn lemma_call(c: Ctx, s: St, e: Expr)
    ensures
        extends(s, call_v(c, s, e).0),
    decreases e, 1int,
{
    if let Expr::Call { name, args, span } = e {
        let n = name.name@;
        if c.functions().contains_key(n) {
            let f = c.functions()[n];
            let s1 = if f.is_fallible && !c.modular {
                unhandled_v(c, s, n, span)
            } else {
                s
            };
            lemma_args(c, s1, args@, crate::rules::param_types(f.params@));
            lemma_trans(s, s1, args_v(c, s1, args@, crate::rules::param_types(f.params@)));
        } else if c.symbols.builtins().contains_key(n) {
            lemma_builtin(c, s, e);
        }
    }
}

proof fn lemma_builtin(c: Ctx, s: St, e: Expr)
    ensures
        extends(s, builtin_v(c, s, e).0),
    decreases e, 0int,
{
    if let Expr::Call { name, args, span } = e {
        let n = name.name@;
        let a = args@;
        let k = builtin_kind(n);
        if k == 0 || k == 2 {
            if a.len() == 1 {
                law_expr_keeps_errors(c, s, a[0]);
                lemma_trans(s, expr_v(c, s, a[0]).0, builtin_v(c, s, e).0);
            }
        } else if k == 1 || k == 3 {
            if a.len() == 2 {
                law_expr_keeps_errors(c, s, a[0]);
                let s1 = expr_v(c, s, a[0]).0;
                law_expr_keeps_errors(c, s1, a[1]);
                let s2 = expr_v(c, s1, a[1]).0;
                lemma_trans(s, s1, s2);
                lemma_trans(s, s2, builtin_v(c, s, e).0);
            }
        } else if k == 4 {
            if a.len() == 3 {
                law_expr_keeps_errors(c, s, a[0]);
                let s1 = expr_v(c, s, a[0]).0;
                law_expr_keeps_errors(c, s1, a[1]);
                let s2 = expr_v(c, s1, a[1]).0;
                law_expr_keeps_errors(c, s2, a[2]);
                let s3 = expr_v(c, s2, a[2]).0;
                lemma_trans(s, s1, s2);
                lemma_trans(s, s2, s3);
                lemma_trans(s, s3, builtin_v(c, s, e).0);
            }
        } else if k == 5 {
            if a.len() == 1 {
                law_expr_keeps_errors(c, s, a[0]);
                lemma_trans(s, expr_v(c, s, a[0]).0, builtin_v(c, s, e).0);
            }
        } else {
            let b = c.symbols.builtin_infos()[n];
            if let Some(ps) = b.params {
                if a.len() == ps@.len() {
                    lemma_args(c, s, a, crate::rules::types_of(ps@));
                }
            }
        }
    }
}


proof fn lemma_bind_all(s: St, names: Seq<Ident>, ts: Seq<TypeV>)
    ensures
        extends(s, bind_all_v(s, names, ts)),
    decreases names.len(),
{
    if names.len() > 0 {
        lemma_bind_all(s, names.drop_last(), ts);
    }
}

/// Checking a statement never retracts an error and leaves the scopes as
/// deep as it found them.
pub proof fn law_stmt_keeps_errors(c: Ctx, s: St, st: Stmt)
    ensures
        extends(s, stmt_v(c, s, st)),
    decreases st, 2int,
{
    match st {
        Stmt::Let { value, .. } => {
            law_expr_keeps_errors(c, s, value);
            lemma_trans(s, expr_v(c, s, value).0, stmt_v(c, s, st));
        },
        Stmt::Assign { name, value, .. } => {
            let s1 = lookup_v(c, s, name.name@, name.span).0;
            law_expr_keeps_errors(c, s1, value);
            let s2 = expr_v(c, s1, value).0;
            lemma_trans(s, s1, s2);
            lemma_trans(s, s2, stmt_v(c, s, st));
        },
        Stmt::Return { value, .. } => {
            if c.in_function {
                if let Some(e) = value {
                    law_expr_keeps_errors(c, s, e);
                    lemma_trans(s, expr_v(c, s, e).0, stmt_v(c, s, st));
                }
            }
        },
        Stmt::If { condition, then_block, else_block, span } => {
            law_expr_keeps_errors(c, s, condition);
            let (s1, ct) = expr_v(c, s, condition);
            let s1c = cond_v(s1, ct, span);
            lemma_trans(s, s1, s1c);
            lemma_scoped_block(c, s1c, then_block);
            let s2 = scoped_block_v(c, s1c, then_block);
            lemma_trans(s, s1c, s2);
            match else_block {
                None => {},
                Some(ElseBranch::Block(b)) => {
                    lemma_scoped_block(c, s2, b);
                    lemma_trans(s, s2, scoped_block_v(c, s2, b));
                },
                Some(ElseBranch::ElseIf(inner)) => {
                    law_stmt_keeps_errors(c, s2, *inner);
                    lemma_trans(s, s2, stmt_v(c, s2, *inner));
                },
            }
        },
        Stmt::For { pattern, iter, body, span } => {
            law_expr_keeps_errors(c, s, iter);
            let (s1, it) = expr_v(c, s, iter);
            let (s2, elem) = match crate::rules::iter_elem(it) {
                Some(x) => (s1, x),
                None => (
                    if it is Error {
                        s1
                    } else {
                        crate::checker::push_err(s1, crate::error::ErrV::NotIterable { ty: crate::types::display(it), span })
                    },
                    TypeV::Error,
                ),
            };
            lemma_trans(s, s1, s2);
            let s2l = St { in_loop: true, ..push_scope_v(s2) };
            lemma_pattern(c, s2l, pattern, elem);
            let s3 = pattern_v(c, s2l, pattern, elem);
            lemma_block(c, s3, body.stmts@);
            let s4 = block_v(c, s3, body.stmts@);
            lemma_trans(s2l, s3, s4);
            lemma_scoped(s2, s4);
            lemma_trans(s, s2, pop_scope_v(s4));
        },
        Stmt::While { condition, body, span } => {
            law_expr_keeps_errors(c, s, condition);
            let (s1, ct) = expr_v(c, s, condition);
            let s1c = cond_v(s1, ct, span);
            lemma_trans(s, s1, s1c);
            lemma_loop_body(c, s1c, body);
            lemma_trans(s, s1c, loop_body_v(c, s1c, body));
        },
        Stmt::Loop { body, .. } => lemma_loop_body(c, s, body),
        Stmt::Expr { expr, .. } => law_expr_keeps_errors(c, s, expr),
        Stmt::LetTuple { names, ty, value, span } => {
            law_expr_keeps_errors(c, s, value);
            let (s1, vt) = expr_v(c, s, value);
            let errors = Seq::new(names@.len(), |i: int| TypeV::Error);
            match vt {
                TypeV::Tuple(ts) => if names@.len() == ts.len() {
                    lemma_bind_all(s1, names@, ts);
                },
                _ => {
                    lemma_bind_all(s1, names@, errors);
                    let m = crate::checker::push_err(
                        s1,
                        crate::error::ErrV::TypeMismatch {
                            expected: "tuple with "@ + crate::rules::decimal(names@.len()) + " elements"@,
                            found: crate::types::display(vt),
                            span,
                        },
                    );
                    lemma_bind_all(m, names@, errors);
                    lemma_trans(s1, m, bind_all_v(m, names@, errors));
                },
            }
            let s2 = match vt {
                TypeV::Tuple(ts) => if names@.len() != ts.len() {
                    crate::checker::push_err(
                        s1,
                        crate::error::ErrV::TupleArityMismatch { expected: names@.len(), found: ts.len(), span },
                    )
                } else {
                    bind_all_v(s1, names@, ts)
                },
                TypeV::Error => bind_all_v(s1, names@, errors),
                _ => bind_all_v(
                    crate::checker::push_err(
                        s1,
                        crate::error::ErrV::TypeMismatch {
                            expected: "tuple with "@ + crate::rules::decimal(names@.len()) + " elements"@,
                            found: crate::types::display(vt),
                            span,
                        },
                    ),
                    names@,
                    errors,
                ),
            };
            lemma_trans(s, s1, s2);
            lemma_trans(s, s2, stmt_v(c, s, st));
        },
        _ => {},
    }
}

proof fn lemma_block(c: Ctx, s: St, stmts: Seq<Stmt>)
    ensures
        extends(s, block_v(c, s, stmts)),
    decreases stmts, 0int,
{
    if stmts.len() > 0 {
        lemma_block(c, s, stmts.drop_last());
        let s1 = block_v(c, s, stmts.drop_last());
        law_stmt_keeps_errors(c, s1, stmts.last());
        lemma_trans(s, s1, block_v(c, s, stmts));
    }
}

proof fn lemma_scoped_block(c: Ctx, s: St, b: Block)
    ensures
        extends(s, scoped_block_v(c, s, b)),
    decreases b, 1int,
{
    lemma_block(c, push_scope_v(s), b.stmts@);
    lemma_scoped(s, block_v(c, push_scope_v(s), b.stmts@));
}

proof fn lemma_loop_body(c: Ctx, s: St, b: Block)
    ensures
        extends(s, loop_body_v(c, s, b)),
    decreases b, 1int,
{
    let s0 = St { in_loop: true, ..push_scope_v(s) };
    lemma_block(c, s0, b.stmts@);
    lemma_scoped(s, block_v(c, s0, b.stmts@));
}

proof fn lemma_handlers(c: Ctx, s: St, hs: Seq<HandlerDecl>)
    ensures
        extends(s, handlers_v(c, s, hs)),
    decreases hs.len(),
{
    if hs.len() > 0 {
        lemma_handlers(c, s, hs.drop_last());
        let s1 = handlers_v(c, s, hs.drop_last());
        let h = hs.last();
        let p = push_scope_v(s1);
        let s2 = match h.event {
            crate::ast::EventKind::Message { param_name, param_ty } => define_v(p, param_name.name@, crate::rules::declared(param_ty)),
            crate::ast::EventKind::Error { param_name } => define_v(p, param_name.name@, TypeV::Named("Error"@)),
            _ => p,
        };
        lemma_block(c, s2, h.body.stmts@);
        lemma_trans(p, s2, block_v(c, s2, h.body.stmts@));
        lemma_scoped(s1, block_v(c, s2, h.body.stmts@));
        lemma_trans(s, s1, handler_v(c, s1, h));
    }
}

proof fn lemma_unused(s: St, bs: Seq<BeliefDecl>)
    ensures
        extends(s, unused_v(s, bs)),
    decreases bs.len(),
{
    if bs.len() > 0 {
        lemma_unused(s, bs.drop_last());
        lemma_trans(s, unused_v(s, bs.drop_last()), unused_v(s, bs));
    }
}

proof fn lemma_params(s: St, ps: Seq<Param>)
    ensures
        extends(s, params_v(s, ps)),
    decreases ps.len(),
{
    if ps.len() > 0 {
        lemma_params(s, ps.drop_last());
    }
}

/// Checking an agent never retracts an error and leaves the scopes as deep
/// as it found them.
pub proof fn law_agent_keeps_errors(c: Ctx, s: St, a: AgentDecl)
    ensures
        extends(s, agent_v(c, s, a)),
{
    let s0 = St { used: Set::empty(), ..s };
    lemma_handlers(agent_ctx(c, a), s0, a.handlers@);
    let s1 = handlers_v(agent_ctx(c, a), s0, a.handlers@);
    lemma_unused(s1, a.beliefs@);
    lemma_trans(s0, s1, unused_v(s1, a.beliefs@));
}

/// Checking a function never retracts an error and leaves the scopes as
/// deep as it found them.
pub proof fn law_function_keeps_errors(c: Ctx, s: St, f: FnDecl)
    ensures
        extends(s, function_v(c, s, f)),
{
    let p = push_scope_v(s);
    lemma_params(p, f.params@);
    let s1 = params_v(p, f.params@);
    lemma_block(fn_ctx(c, f), s1, f.body.stmts@);
    lemma_trans(p, s1, block_v(fn_ctx(c, f), s1, f.body.stmts@));
    lemma_scoped(s, block_v(fn_ctx(c, f), s1, f.body.stmts@));
}

proof fn lemma_agents(c: Ctx, s: St, ags: Seq<AgentDecl>)
    ensures
        extends(s, agents_v(c, s, ags)),
    decreases ags.len(),
{
    if ags.len() > 0 {
        lemma_agents(c, s, ags.drop_last());
        let s1 = agents_v(c, s, ags.drop_last());
        law_agent_keeps_errors(c, s1, ags.last());
        lemma_trans(s, s1, agents_v(c, s, ags));
    }
}

proof fn lemma_functions(c: Ctx, s: St, fs: Seq<FnDecl>)
    ensures
        extends(s, functions_v(c, s, fs)),
    decreases fs.len(),
{
    if fs.len() > 0 {
        lemma_functions(c, s, fs.drop_last());
        let s1 = functions_v(c, s, fs.drop_last());
        law_function_keeps_errors(c, s1, fs.last());
        lemma_trans(s, s1, functions_v(c, s, fs));
    }
}

proof fn lemma_consts(c: Ctx, s: St, ds: Seq<ConstDecl>)
    ensures
        extends(s, consts_v(c, s, ds)),
    decreases ds.len(),
{
    if ds.len() > 0 {
        lemma_consts(c, s, ds.drop_last());
        let s1 = consts_v(c, s, ds.drop_last());
        law_expr_keeps_errors(c, s1, ds.last().value);
        let s2 = expr_v(c, s1, ds.last().value).0;
        lemma_trans(s, s1, s2);
        lemma_trans(s, s2, consts_v(c, s, ds));
    }
}

/// Checking the bodies of a program never retracts an error and leaves the
/// scopes as deep as it found them.
pub proof fn law_bodies_keep_errors(c: Ctx, s: St, p: Program)
    ensures
        extends(s, bodies_v(c, s, p)),
{
    lemma_agents(c, s, p.agents@);
    let s1 = agents_v(c, s, p.agents@);
    lemma_functions(c, s1, p.functions@);
    let s2 = functions_v(c, s1, p.functions@);
    lemma_consts(c, s2, p.consts@);
    let s3 = consts_v(c, s2, p.consts@);
    lemma_trans(s, s1, s2);
    lemma_trans(s, s2, s3);
    lemma_trans(s, s3, entry_v(c, s3, p));
}

/// The errors of checking a program begin with its duplicate definitions,
/// in declaration order, and checking ends with the one scope it started
/// with.
pub proof fn law_duplicates_reported_first(t: SymbolTable, p: Program)
    ensures
        collect_errors(p).len() <= program_st(t, p).errors.len(),
        program_st(t, p).errors.subrange(0, collect_errors(p).len() as int) == collect_errors(p),
        program_st(t, p).scopes.len() == 1,
{
    let s0 = St { errors: collect_errors(p), ..initial_st() };
    law_bodies_keep_errors(program_ctx(t), s0, p);
    assert(program_st(t, p).errors.subrange(0, collect_errors(p).len() as int) =~= collect_errors(p));
}

// =========================================================================
// Module trees
// =========================================================================

/// In a module of a tree, a declaration of another module is visible only
/// through an import: a name that denotes an agent, function, record, enum
/// or constant defined elsewhere is one the module imports.
pub proof fn law_other_modules_need_import(c: Ctx, k: Seq<char>)
    requires
        c.modular,
    ensures
        c.agents().contains_key(k) && agent_module(c.agents()[k]) != c.module ==> c.imports.contains_key(k),
        c.functions().contains_key(k) && function_module(c.functions()[k]) != c.module ==> c.imports.contains_key(k),
        c.records().contains_key(k) && record_module(c.records()[k]) != c.module ==> c.imports.contains_key(k),
        c.enums().contains_key(k) && enum_module(c.enums()[k]) != c.module ==> c.imports.contains_key(k),
        c.consts().contains_key(k) && const_module(c.consts()[k]) != c.module ==> c.imports.contains_key(k),
{
}

/// Some declaration named `k` in the program is public.
pub open spec fn declares_public(p: Program, k: Seq<char>) -> bool {
    ||| exists|i: int| 0 <= i < p.agents@.len() && #[trigger] p.agents@[i].name.name@ == k && p.agents@[i].is_pub
    ||| exists|i: int| 0 <= i < p.functions@.len() && #[trigger] p.functions@[i].name.name@ == k && p.functions@[i].is_pub
    ||| exists|i: int| 0 <= i < p.records@.len() && #[trigger] p.records@[i].name.name@ == k && p.records@[i].is_pub
    ||| exists|i: int| 0 <= i < p.enums@.len() && #[trigger] p.enums@[i].name.name@ == k && p.enums@[i].is_pub
    ||| exists|i: int| 0 <= i < p.consts@.len() && #[trigger] p.consts@[i].name.name@ == k && p.consts@[i].is_pub
}

proof fn lemma_glob_names(imp: ImportsV, target: Seq<Seq<char>>, names: Seq<(Seq<char>, bool)>, k: Seq<char>)
    ensures
        imp.contains_key(k) ==> glob_names(imp, target, names).contains_key(k),
        glob_names(imp, target, names).contains_key(k) ==> glob_names(imp, target, names)[k] == (target, k) || (
        imp.contains_key(k) && glob_names(imp, target, names)[k] == imp[k]),
        glob_names(imp, target, names).contains_key(k) && !imp.contains_key(k) ==> exists|i: int|
            0 <= i < names.len() && #[trigger] names[i] == (k, true),
    decreases names.len(),
{
    if names.len() > 0 {
        let t = names.drop_last();
        lemma_glob_names(imp, target, t, k);
        if glob_names(imp, target, t).contains_key(k) && !imp.contains_key(k) {
            let i = choose|i: int| 0 <= i < t.len() && #[trigger] t[i] == (k, true);
            assert(names[i] == t[i]);
        }
        if names.last().1 && names.last().0 == k {
            assert(names[names.len() - 1] == (k, true));
        }
    }
}

/// `use target::*` imports only public declarations of the module, each
/// under its own name and from that module.
pub proof fn law_glob_imports_only_public(imp: ImportsV, target: Seq<Seq<char>>, p: Program, k: Seq<char>)
    ensures
        glob_v(imp, target, p).contains_key(k) && !imp.contains_key(k) ==> declares_public(p, k) && glob_v(
            imp,
            target,
            p,
        )[k] == (target, k),
{
    let m1 = glob_names(imp, target, agent_pubs(p.agents@));
    let m2 = glob_names(m1, target, function_pubs(p.functions@));
    let m3 = glob_names(m2, target, record_pubs(p.records@));
    let m4 = glob_names(m3, target, enum_pubs(p.enums@));
    let m5 = glob_names(m4, target, const_pubs(p.consts@));
    lemma_glob_names(imp, target, agent_pubs(p.agents@), k);
    lemma_glob_names(m1, target, function_pubs(p.functions@), k);
    lemma_glob_names(m2, target, record_pubs(p.records@), k);
    lemma_glob_names(m3, target, enum_pubs(p.enums@), k);
    lemma_glob_names(m4, target, const_pubs(p.consts@), k);
    if m5.contains_key(k) && !imp.contains_key(k) {
        assert(m5[k] == (target, k));
        if m1.contains_key(k) {
            let i = choose|i: int| 0 <= i < agent_pubs(p.agents@).len() && #[trigger] agent_pubs(p.agents@)[i] == (k, true);
            assert(p.agents@[i].name.name@ == k);
        } else if m2.contains_key(k) {
            let i = choose|i: int| 0 <= i < function_pubs(p.functions@).len() && #[trigger] function_pubs(p.functions@)[i] == (k, true);
            assert(p.functions@[i].name.name@ == k);
        } else if m3.contains_key(k) {
            let i = choose|i: int| 0 <= i < record_pubs(p.records@).len() && #[trigger] record_pubs(p.records@)[i] == (k, true);
            assert(p.records@[i].name.name@ == k);
        } else if m4.contains_key(k) {
            let i = choose|i: int| 0 <= i < enum_pubs(p.enums@).len() && #[trigger] enum_pubs(p.enums@)[i] == (k, true);
            assert(p.enums@[i].name.name@ == k);
        } else {
            let i = choose|i: int| 0 <= i < const_pubs(p.consts@).len() && #[trigger] const_pubs(p.consts@)[i] == (k, true);
            assert(p.consts@[i].name.name@ == k);
        }
    }
}

/// Module `target` declares `item` publicly in the table.
pub open spec fn public_in(t: SymbolTable, target: Seq<Seq<char>>, item: Seq<char>) -> bool {
    ||| t.agents().contains_key(item) && agent_module(t.agents()[item]) == target && t.agents()[item].is_pub
    ||| t.functions().contains_key(item) && function_module(t.functions()[item]) == target && t.functions()[item].is_pub
    ||| t.records().contains_key(item) && record_module(t.records()[item]) == target && t.records()[item].is_pub
    ||| t.enums().contains_key(item) && enum_module(t.enums()[item]) == target && t.enums()[item].is_pub
    ||| t.consts().contains_key(item) && const_module(t.consts()[item]) == target && t.consts()[item].is_pub
}

/// An import from another module stands only if that module declares the
/// item publicly; an import stands exactly when it reports no error, and a
/// refused one reports one error.
pub proof fn law_import_needs_public(
    t: SymbolTable,
    target: Seq<Seq<char>>,
    item: Seq<char>,
    from: Seq<Seq<char>>,
    span: Span,
)
    ensures
        verify_import_v(t, target, item, from, span).0 && target != from ==> public_in(t, target, item),
        verify_import_v(t, target, item, from, span).0 <==> verify_import_v(t, target, item, from, span).1.len() == 0,
        verify_import_v(t, target, item, from, span).1.len() <= 1,
{
}

/// The errors of checking a tree begin with the duplicate definitions of
/// the first pass.
pub proof fn law_tree_duplicates_first(t: SymbolTable, ms: Seq<ParsedModule>, root: Seq<Seq<char>>)
    ensures
        collect_tree(ms).errors.len() <= tree_errors(t, ms, root).len(),
        tree_errors(t, ms, root).subrange(0, collect_tree(ms).errors.len() as int) == collect_tree(ms).errors,
{
    let c = collect_tree(ms).errors;
    let rest = import_errors(t, ms, ms.len() as int) + bodies_tree(t, ms, ms.len() as int).0 + tree_entry_v(t, ms, root);
    assert(tree_errors(t, ms, root) =~= c + rest);
    assert((c + rest).subrange(0, c.len() as int) =~= c);
}

/// The error an unhandled fallible operation is reported with.
pub open spec fn unhandled_err(name: Seq<char>, span: Span) -> ErrV {
    ErrV::UnhandledError { name, span }
}

/// Fallible operations must be handled: outside `try` and `catch`,
/// `infer` and a call of a function marked `fails` are reported (when a
/// program is checked on its own; a module of a tree lets them pass),
/// and `await` and `send` always are.
pub proof fn law_fallible_must_be_handled(c: Ctx, s: St, e: Expr)
    requires
        !c.in_error_handling,
    ensures
        e matches Expr::Infer { span, .. } ==> (!c.modular ==> expr_v(c, s, e).0.errors.contains(
            unhandled_err("infer"@, span),
        )),
        e matches Expr::Await { span, .. } ==> expr_v(c, s, e).0.errors.contains(unhandled_err("await"@, span)),
        e matches Expr::Send { span, .. } ==> expr_v(c, s, e).0.errors.contains(unhandled_err("send"@, span)),
        e matches Expr::Call { name, span, .. } ==> (!c.modular && c.functions().contains_key(name.name@)
            && c.functions()[name.name@].is_fallible ==> expr_v(c, s, e).0.errors.contains(
            unhandled_err(name.name@, span),
        )),
{
    match e {
        Expr::Infer { span, .. } => {
            if !c.modular {
                let r = expr_v(c, s, e).0;
                assert(r.errors[s.errors.len() as int] == unhandled_err("infer"@, span));
            }
        },
        Expr::Await { handle, span } => {
            law_expr_keeps_errors(c, s, *handle);
            let s1 = expr_v(c, s, *handle).0;
            let s2 = unhandled_v(c, s1, "await"@, span);
            let r = expr_v(c, s, e).0;
            assert(extends(s2, r));
            assert(r.errors[s1.errors.len() as int] == s2.errors[s1.errors.len() as int]);
        },
        Expr::Send { handle, message, span } => {
            lemma_send(c, s, e);
            let s1 = unhandled_v(c, s, "send"@, span);
            law_expr_keeps_errors(c, s1, *handle);
            let s2 = expr_v(c, s1, *handle).0;
            law_expr_keeps_errors(c, s2, *message);
            let s3 = expr_v(c, s2, *message).0;
            lemma_trans(s1, s2, s3);
            let r = expr_v(c, s, e).0;
            assert(extends(s3, r));
            lemma_trans(s1, s3, r);
            assert(r.errors[s.errors.len() as int] == s1.errors[s.errors.len() as int]);
        },
        Expr::Call { name, args, span } => {
            let n = name.name@;
            if !c.modular && c.functions().contains_key(n) && c.functions()[n].is_fallible {
                let f = c.functions()[n];
                let s1 = unhandled_v(c, s, n, span);
                let r = expr_v(c, s, e).0;
                assert(r == call_v(c, s, e).0);
                if args@.len() == f.params@.len() {
                    lemma_args(c, s1, args@, crate::rules::param_types(f.params@));
                    assert(extends(s1, r));
                }
                assert(r.errors[s.errors.len() as int] == s1.errors[s.errors.len() as int]);
            }
        },
        _ => {},
    }
}


// =========================================================================
// The symbol table's built-ins
// =========================================================================

/// `b` is `a` after one `define_*` call, as those methods state it: one
/// declaration is added to (or replaces one of its name in) one table, and
/// the built-ins and every other table are as they were.
pub open spec fn define_step(a: SymbolTable, b: SymbolTable) -> bool {
    &&& b.wf()
    &&& b.builtins() == a.builtins()
    &&& b.builtin_infos() == a.builtin_infos()
    &&& {
        ||| exists|i: AgentInfo| #[trigger] b.agents() == a.agents().insert(i.name@, i) && b.supervisors() == a.supervisors() && b.protocols() == a.protocols() && b.effect_handlers() == a.effect_handlers() && b.functions() == a.functions() && b.records() == a.records() && b.enums() == a.enums() && b.consts() == a.consts()
        ||| exists|i: SupervisorInfo| #[trigger] b.supervisors() == a.supervisors().insert(i.name@, i) && b.agents() == a.agents() && b.protocols() == a.protocols() && b.effect_handlers() == a.effect_handlers() && b.functions() == a.functions() && b.records() == a.records() && b.enums() == a.enums() && b.consts() == a.consts()
        ||| exists|i: ProtocolInfo| #[trigger] b.protocols() == a.protocols().insert(i.name@, i) && b.agents() == a.agents() && b.supervisors() == a.supervisors() && b.effect_handlers() == a.effect_handlers() && b.functions() == a.functions() && b.records() == a.records() && b.enums() == a.enums() && b.consts() == a.consts()
        ||| exists|i: EffectHandlerInfo| #[trigger] b.effect_handlers() == a.effect_handlers().insert(i.name@, i) && b.agents() == a.agents() && b.supervisors() == a.supervisors() && b.protocols() == a.protocols() && b.functions() == a.functions() && b.records() == a.records() && b.enums() == a.enums() && b.consts() == a.consts()
        ||| exists|i: FunctionInfo| #[trigger] b.functions() == a.functions().insert(i.name@, i) && b.agents() == a.agents() && b.supervisors() == a.supervisors() && b.protocols() == a.protocols() && b.effect_handlers() == a.effect_handlers() && b.records() == a.records() && b.enums() == a.enums() && b.consts() == a.consts()
        ||| exists|i: RecordInfo| #[trigger] b.records() == a.records().insert(i.name@, i) && b.agents() == a.agents() && b.supervisors() == a.supervisors() && b.protocols() == a.protocols() && b.effect_handlers() == a.effect_handlers() && b.functions() == a.functions() && b.enums() == a.enums() && b.consts() == a.consts()
        ||| exists|i: EnumInfo| #[trigger] b.enums() == a.enums().insert(i.name@, i) && b.agents() == a.agents() && b.supervisors() == a.supervisors() && b.protocols() == a.protocols() && b.effect_handlers() == a.effect_handlers() && b.functions() == a.functions() && b.records() == a.records() && b.consts() == a.consts()
        ||| exists|i: ConstInfo| #[trigger] b.consts() == a.consts().insert(i.name@, i) && b.agents() == a.agents() && b.supervisors() == a.supervisors() && b.protocols() == a.protocols() && b.effect_handlers() == a.effect_handlers() && b.functions() == a.functions() && b.records() == a.records() && b.enums() == a.enums()
    }
}

/// No sequence of `define_*` calls on a symbol table changes its built-in
/// functions: after `SymbolTable::new()` and any such sequence the table is
/// well formed, holds exactly the built-ins it was made with, stored as they
/// were, so that `get_builtin` finds a name exactly when `has_builtin` does
/// and returns the same entry as right after `new()`.
pub proof fn law_defines_keep_builtins(ts: Seq<SymbolTable>)
    requires
        ts.len() > 0,
        ts[0].wf(),
        ts[0].builtins() == spec_builtins(),
        forall|i: int| 0 <= i < ts.len() - 1 ==> #[trigger] define_step(ts[i], ts[i + 1]),
    ensures
        forall|i: int| 0 <= i < ts.len() ==> #[trigger] ts[i].wf() && ts[i].builtins() == spec_builtins()
            && ts[i].builtin_infos() == ts[0].builtin_infos(),
    decreases ts.len(),
{
    if ts.len() > 1 {
        let front = ts.drop_last();
        assert forall|i: int| 0 <= i < front.len() - 1 implies #[trigger] define_step(front[i], front[i + 1]) by {
            assert(define_step(ts[i], ts[i + 1]));
        }
        law_defines_keep_builtins(front);
        assert(front[0] == ts[0]);
        assert forall|i: int| 0 <= i < ts.len() implies #[trigger] ts[i].wf() && ts[i].builtins() == spec_builtins()
            && ts[i].builtin_infos() == ts[0].builtin_infos() by {
            if i < ts.len() - 1 {
                assert(front[i] == ts[i]);
                assert(front[i].wf());
            } else {
                let j = i - 1;
                assert(front[j] == ts[j]);
                assert(front[j].wf());
                assert(define_step(ts[j], ts[j + 1]));
                assert(ts[j + 1] == ts[i]);
            }
        }
    }
}

} // verus!
