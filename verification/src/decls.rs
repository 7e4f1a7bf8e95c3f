//! The first pass of checking: the declarations of a program, collected
//! into the symbol table, and the duplicates it reports.

use vstd::prelude::*;
use crate::ast::AgentDecl;
use crate::ast::BeliefDecl;
use crate::ast::ConstDecl;
use crate::ast::EnumDecl;
use crate::ast::FnDecl;
use crate::ast::Program;
use crate::ast::RecordDecl;
use crate::ast::RecordField;
use crate::ast::Span;
use crate::builtins::spec_builtin_enums;
use crate::builtins::spec_builtins;
use crate::error::ErrV;
use crate::rules::declared;
use crate::rules::first_message_type;
use crate::rules::has_start;
use crate::scope::AgentInfo;
use crate::scope::ConstInfo;
use crate::scope::EnumInfo;
use crate::scope::EnumV;
use crate::scope::FunctionInfo;
use crate::scope::RecordInfo;
use crate::scope::SymbolTable;
use crate::scope::SupervisorInfo;
use crate::scope::ProtocolInfo;
use crate::scope::EffectHandlerInfo;
use crate::scope::names_view;
use crate::types::Type;
use crate::types::TypeV;

verus! {

/// Declaring names in order: a name already declared is a
/// `DuplicateDefinition` and is skipped. Gives the declared names and the
/// errors, in order.
pub open spec fn declare_names(seen: Set<Seq<char>>, items: Seq<(Seq<char>, Span)>) -> (Set<Seq<char>>, Seq<ErrV>)
    decreases items.len(),
{
    if items.len() == 0 {
        (seen, Seq::empty())
    } else {
        let (names, errs) = declare_names(seen, items.drop_last());
        let (n, span) = items.last();
        if names.contains(n) {
            (names, errs.push(ErrV::DuplicateDefinition { name: n, span }))
        } else {
            (names.insert(n), errs)
        }
    }
}

/// Position of the first item named `n`, or -1 if there is none.
pub open spec fn first_decl(items: Seq<(Seq<char>, Span)>, n: Seq<char>) -> int
    decreases items.len(),
{
    if items.len() == 0 {
        -1
    } else {
        let i = first_decl(items.drop_last(), n);
        if i >= 0 {
            i
        } else if items.last().0 == n {
            items.len() - 1
        } else {
            -1
        }
    }
}

/// The declared names are those seen before and those of the items; the
/// first item of each name is where its name is.
pub proof fn lemma_declare_names(seen: Set<Seq<char>>, items: Seq<(Seq<char>, Span)>)
    ensures
        forall|k: Seq<char>| #[trigger] declare_names(seen, items).0.contains(k) <==> (seen.contains(k)
            || first_decl(items, k) >= 0),
        forall|k: Seq<char>|
            first_decl(items, k) >= 0 ==> #[trigger] first_decl(items, k) < items.len()
                && items[first_decl(items, k)].0 == k,
    decreases items.len(),
{
    if items.len() > 0 {
        let t = items.drop_last();
        lemma_declare_names(seen, t);
        let names = declare_names(seen, t).0;
        let n = items.last().0;
        assert(declare_names(seen, items).0 == if names.contains(n) {
            names
        } else {
            names.insert(n)
        });
        assert forall|k: Seq<char>| #[trigger] declare_names(seen, items).0.contains(k) <==> (seen.contains(k)
            || first_decl(items, k) >= 0) by {
            if first_decl(t, k) >= 0 {
                assert(first_decl(items, k) == first_decl(t, k));
            }
        }
        assert forall|k: Seq<char>|
            first_decl(items, k) >= 0 implies #[trigger] first_decl(items, k) < items.len()
                && items[first_decl(items, k)].0 == k by {
            if first_decl(t, k) >= 0 {
                assert(t[first_decl(t, k)] == items[first_decl(t, k)]);
            }
        }
    }
}

/// The name and span of each agent.
pub open spec fn agent_items(ds: Seq<AgentDecl>) -> Seq<(Seq<char>, Span)> {
    Seq::new(ds.len(), |i: int| (ds[i].name.name@, ds[i].span))
}

/// The name and span of each function.
pub open spec fn function_items(ds: Seq<FnDecl>) -> Seq<(Seq<char>, Span)> {
    Seq::new(ds.len(), |i: int| (ds[i].name.name@, ds[i].span))
}

/// The name and span of each record.
pub open spec fn record_items(ds: Seq<RecordDecl>) -> Seq<(Seq<char>, Span)> {
    Seq::new(ds.len(), |i: int| (ds[i].name.name@, ds[i].span))
}

/// The name and span of each enum.
pub open spec fn enum_items(ds: Seq<EnumDecl>) -> Seq<(Seq<char>, Span)> {
    Seq::new(ds.len(), |i: int| (ds[i].name.name@, ds[i].span))
}

/// The name and span of each constant.
pub open spec fn const_items(ds: Seq<ConstDecl>) -> Seq<(Seq<char>, Span)> {
    Seq::new(ds.len(), |i: int| (ds[i].name.name@, ds[i].span))
}

/// The names of the built-in enums.
pub open spec fn builtin_enum_names() -> Set<Seq<char>> {
    set!["Option"@, "Result"@]
}

/// The beliefs of an agent as a map: a later belief of the same name
/// replaces an earlier one.
pub open spec fn beliefs_map(bs: Seq<BeliefDecl>) -> Map<Seq<char>, TypeV>
    decreases bs.len(),
{
    if bs.len() == 0 {
        Map::empty()
    } else {
        beliefs_map(bs.drop_last()).insert(bs.last().name.name@, declared(bs.last().ty))
    }
}

/// The fields of a record as a map: a later field of the same name replaces
/// an earlier one.
pub open spec fn fields_map(fs: Seq<RecordField>) -> Map<Seq<char>, TypeV>
    decreases fs.len(),
{
    if fs.len() == 0 {
        Map::empty()
    } else {
        fields_map(fs.drop_last()).insert(fs.last().name.name@, declared(fs.last().ty))
    }
}

/// The agent information collected from a declaration.
pub open spec fn agent_models(a: AgentInfo, d: AgentDecl, module: Seq<String>) -> bool {
    &&& a.name@ == d.name.name@
    &&& a.wf()
    &&& a.beliefs@.map_values(|t: Type| t@) == beliefs_map(d.beliefs@)
    &&& match a.message_type {
        Some(t) => first_message_type(d.handlers@) == Some(t@),
        None => first_message_type(d.handlers@) is None,
    }
    &&& a.emit_type is None
    &&& a.has_start_handler == has_start(d.handlers@)
    &&& a.is_pub == d.is_pub
    &&& a.module@ == module
}

/// The function information collected from a declaration.
pub open spec fn function_models(f: FunctionInfo, d: FnDecl, module: Seq<String>) -> bool {
    &&& f.name@ == d.name.name@
    &&& f.type_params@.len() == 0
    &&& f.params@.len() == d.params@.len()
    &&& forall|i: int|
        0 <= i < d.params@.len() ==> (#[trigger] f.params@[i]).0@ == d.params@[i].name.name@ && f.params@[i].1@
            == declared(d.params@[i].ty)
    &&& f.return_type@ == declared(d.return_ty)
    &&& f.is_pub == d.is_pub
    &&& f.module@ == module
    &&& f.is_fallible == d.is_fallible
}

/// The record information collected from a declaration.
pub open spec fn record_models(r: RecordInfo, d: RecordDecl, module: Seq<String>) -> bool {
    &&& r.name@ == d.name.name@
    &&& r.type_params@.len() == 0
    &&& r.wf()
    &&& r.fields@.map_values(|t: Type| t@) == fields_map(d.fields@)
    &&& names_view(r.field_order@) == Seq::new(d.fields@.len(), |i: int| d.fields@[i].name.name@)
    &&& r.is_pub == d.is_pub
    &&& r.module@ == module
}

/// The enum information collected from a declaration.
pub open spec fn enum_models(e: EnumInfo, d: EnumDecl, module: Seq<String>) -> bool {
    &&& e@ == EnumV {
        name: d.name.name@,
        type_params: Seq::empty(),
        variants: Seq::new(
            d.variants@.len(),
            |i: int|
                (
                    d.variants@[i].name.name@,
                    match d.variants@[i].payload {
                        Some(t) => Some(declared(t)),
                        None => None,
                    },
                ),
        ),
        is_pub: d.is_pub,
        module: names_view(module),
    }
    &&& e.module@ == module
}

/// The constant information collected from a declaration.
pub open spec fn const_models(c: ConstInfo, d: ConstDecl, module: Seq<String>) -> bool {
    &&& c.name@ == d.name.name@
    &&& c.ty@ == declared(d.ty)
    &&& c.is_pub == d.is_pub
    &&& c.module@ == module
}

/// The symbol table holds the built-ins and, for each kind of declaration,
/// the first declaration of each name (the built-in enums keep theirs).
pub open spec fn collected(t: SymbolTable, p: Program, module: Seq<String>) -> bool {
    let ai = agent_items(p.agents@);
    let fi = function_items(p.functions@);
    let ri = record_items(p.records@);
    let ei = enum_items(p.enums@);
    let ci = const_items(p.consts@);
    &&& t.wf()
    &&& t.builtins() == spec_builtins()
    &&& t.supervisors() == Map::<Seq<char>, SupervisorInfo>::empty()
    &&& t.protocols() == Map::<Seq<char>, ProtocolInfo>::empty()
    &&& t.effect_handlers() == Map::<Seq<char>, EffectHandlerInfo>::empty()
    &&& t.agents().dom() == declare_names(Set::empty(), ai).0
    &&& forall|k: Seq<char>| #[trigger] t.agents().contains_key(k) ==> agent_models(
        t.agents()[k],
        p.agents@[first_decl(ai, k)],
        module,
    )
    &&& t.functions().dom() == declare_names(Set::empty(), fi).0
    &&& forall|k: Seq<char>| #[trigger] t.functions().contains_key(k) ==> function_models(
        t.functions()[k],
        p.functions@[first_decl(fi, k)],
        module,
    )
    &&& t.records().dom() == declare_names(Set::empty(), ri).0
    &&& forall|k: Seq<char>| #[trigger] t.records().contains_key(k) ==> record_models(
        t.records()[k],
        p.records@[first_decl(ri, k)],
        module,
    )
    &&& t.enums().dom() == declare_names(builtin_enum_names(), ei).0
    &&& forall|k: Seq<char>| #[trigger] t.enums().contains_key(k) ==> if builtin_enum_names().contains(k) {
        t.enums()[k]@ == spec_builtin_enums()[k]
    } else {
        enum_models(t.enums()[k], p.enums@[first_decl(ei, k)], module)
    }
    &&& t.consts().dom() == declare_names(Set::empty(), ci).0
    &&& forall|k: Seq<char>| #[trigger] t.consts().contains_key(k) ==> const_models(
        t.consts()[k],
        p.consts@[first_decl(ci, k)],
        module,
    )
}

/// The duplicate-definition errors of the first pass, kind by kind: agents,
/// functions, records, enums, constants.
pub open spec fn collect_errors(p: Program) -> Seq<ErrV> {
    declare_names(Set::empty(), agent_items(p.agents@)).1 + declare_names(
        Set::empty(),
        function_items(p.functions@),
    ).1 + declare_names(Set::empty(), record_items(p.records@)).1 + declare_names(
        builtin_enum_names(),
        enum_items(p.enums@),
    ).1 + declare_names(Set::empty(), const_items(p.consts@)).1
}

} // verus!
