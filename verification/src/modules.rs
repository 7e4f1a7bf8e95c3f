//! Checking a tree of modules.
//!
//! The declarations of every module go into one shared table (an item is
//! entered under its plain name; a name that, qualified by the module, is
//! already in the table is a duplicate). Then each module's `use`
//! declarations are resolved against the table, each module's agents and
//! functions are checked with the names the module sees, and the root
//! module's entry agent is validated.

use vstd::prelude::*;
use crate::ast::Ident;
use crate::ast::Program;
use crate::ast::Span;
use crate::ast::UseDecl;
use crate::ast::UseKind;
use crate::builtins::spec_builtin_enums;
use crate::builtins::spec_builtins;
use crate::checker::Checker;
use crate::checker::agent_module;
use crate::checker::const_module;
use crate::checker::enum_module;
use crate::checker::errs_view;
use crate::checker::function_module;
use crate::checker::imports_view;
use crate::checker::initial_st;
use crate::checker::record_module;
use crate::checker::same_path;
use crate::checker::copy_strings;
use crate::checker::tree_module_ctx;
use crate::checker::with_emits;
use crate::decls::agent_items;
use crate::decls::agent_models;
use crate::decls::builtin_enum_names;
use crate::decls::const_items;
use crate::decls::const_models;
use crate::decls::enum_items;
use crate::decls::enum_models;
use crate::decls::function_items;
use crate::decls::function_models;
use crate::decls::record_items;
use crate::decls::record_models;
use crate::error::CheckError;
use crate::error::ErrV;
use crate::names::NameMap;
use crate::names::distinct_keys;
use crate::rules::module_bodies_v;
use crate::scope::EffectHandlerInfo;
use crate::scope::ProtocolInfo;
use crate::scope::SupervisorInfo;
use crate::scope::SymbolTable;
use crate::scope::names_view;
use crate::types::Type;
use crate::types::TypeV;

verus! {

// =========================================================================
// Module trees
// =========================================================================

/// A module path such as `["agents", "researcher"]`; the root module's is
/// empty.
pub type ModulePath = Vec<String>;

/// One parsed module of a tree.
#[derive(Debug)]
pub struct ParsedModule {
    /// Where the module sits in the tree.
    pub path: Vec<String>,
    /// Its declarations.
    pub program: Program,
}

/// The path of a module, as names.
pub open spec fn path_of(m: ParsedModule) -> Seq<Seq<char>> {
    names_view(m.path@)
}

/// No two modules have the same path.
pub open spec fn distinct_paths(ms: Seq<ParsedModule>) -> bool {
    forall|i: int, j: int| 0 <= i < ms.len() && 0 <= j < ms.len() && i != j ==> path_of(ms[i]) != path_of(ms[j])
}

/// Position of the first module with the given path, or -1.
pub open spec fn find_module(ms: Seq<ParsedModule>, path: Seq<Seq<char>>) -> int
    decreases ms.len(),
{
    if ms.len() == 0 {
        -1
    } else {
        let i = find_module(ms.drop_last(), path);
        if i >= 0 {
            i
        } else if path_of(ms.last()) == path {
            ms.len() - 1
        } else {
            -1
        }
    }
}

/// A found module is one with that path, and a module with that path is found.
pub proof fn lemma_find_module(ms: Seq<ParsedModule>, path: Seq<Seq<char>>)
    ensures
        -1 <= find_module(ms, path) < ms.len(),
        find_module(ms, path) >= 0 ==> path_of(ms[find_module(ms, path)]) == path,
        find_module(ms, path) < 0 ==> forall|j: int| 0 <= j < ms.len() ==> path_of(#[trigger] ms[j]) != path,
        forall|j: int| 0 <= j < find_module(ms, path) ==> path_of(#[trigger] ms[j]) != path,
    decreases ms.len(),
{
    if ms.len() > 0 {
        let t = ms.drop_last();
        lemma_find_module(t, path);
        assert forall|j: int| 0 <= j < find_module(ms, path) implies path_of(#[trigger] ms[j]) != path by {
            assert(ms[j] == t[j]);
        }
        if find_module(ms, path) < 0 {
            assert forall|j: int| 0 <= j < ms.len() implies path_of(#[trigger] ms[j]) != path by {
                if j < ms.len() - 1 {
                    assert(ms[j] == t[j]);
                }
            }
        }
    }
}

/// Extending a sequence of modules keeps a module already found.
pub proof fn lemma_find_module_prefix(ms: Seq<ParsedModule>, k: int, path: Seq<Seq<char>>)
    requires
        0 <= k <= ms.len(),
    ensures
        find_module(ms.subrange(0, k), path) >= 0 ==> find_module(ms, path) == find_module(ms.subrange(0, k), path),
        find_module(ms.subrange(0, k), path) < 0 && k < ms.len() && path_of(ms[k]) == path ==> find_module(ms, path) == k,
    decreases ms.len() - k,
{
    if k < ms.len() {
        let k1 = k + 1;
        assert(ms.subrange(0, k1).drop_last() =~= ms.subrange(0, k));
        assert(ms.subrange(0, k1).last() == ms[k]);
        lemma_find_module_prefix(ms, k1, path);
    } else {
        assert(ms.subrange(0, k) =~= ms);
    }
}

/// Position of the module with the given path, if any.
pub fn module_position(ms: &Vec<ParsedModule>, path: &Vec<String>) -> (r: Option<usize>)
    ensures
        match r {
            Some(i) => i as int == find_module(ms@, names_view(path@)),
            None => find_module(ms@, names_view(path@)) < 0,
        },
{
    let ghost p = names_view(path@);
    let n = ms.len();
    let mut i: usize = 0;
    assert(ms@.subrange(0, 0) =~= Seq::<ParsedModule>::empty());
    while i < n
        invariant
            n == ms@.len(),
            i <= n,
            p == names_view(path@),
            find_module(ms@.subrange(0, i as int), p) < 0,
        decreases n - i,
    {
        let mi = &ms[i];
        let same = same_path(&mi.path, path);
        assert(same == (path_of(ms@[i as int]) == p));
        if same {
            proof {
                lemma_find_module_prefix(ms@, i as int, p);
            }
            return Some(i);
        }
        assert(ms@.subrange(0, i + 1).drop_last() =~= ms@.subrange(0, i as int));
        assert(ms@.subrange(0, i + 1).last() == ms@[i as int]);
        i = i + 1;
    }
    assert(ms@.subrange(0, n as int) =~= ms@);
    None
}

/// A tree of modules: each module path at most once, and the root's path.
pub struct ModuleTree {
    modules: Vec<ParsedModule>,
    root: Vec<String>,
}

impl ModuleTree {
    /// The modules, in the order in which they were added.
    pub closed spec fn modules(&self) -> Seq<ParsedModule> {
        self.modules@
    }

    /// The path of the root module.
    pub closed spec fn root(&self) -> Seq<Seq<char>> {
        names_view(self.root@)
    }

    /// Each path occurs once.
    #[verifier::type_invariant]
    spec fn paths_distinct(self) -> bool {
        distinct_paths(self.modules@)
    }

    /// A tree with no modules yet, whose root module will have the path `root`.
    pub fn new(root: Vec<String>) -> (r: Self)
        ensures
            r.modules() == Seq::<ParsedModule>::empty(),
            r.root() == names_view(root@),
    {
        ModuleTree { modules: Vec::new(), root }
    }

    /// Add a module; it replaces a module of the same path.
    pub fn insert(&mut self, module: ParsedModule)
        ensures
            final(self).root() == old(self).root(),
            find_module(old(self).modules(), path_of(module)) >= 0 ==> final(self).modules() == old(self).modules().update(
                find_module(old(self).modules(), path_of(module)),
                module,
            ),
            find_module(old(self).modules(), path_of(module)) < 0 ==> final(self).modules() == old(self).modules().push(
                module,
            ),
    {
        proof {
            use_type_invariant(&*self);
        }
        let ghost ms0 = self.modules@;
        let ghost p = path_of(module);
        proof {
            lemma_find_module(ms0, p);
        }
        let mut ms: Vec<ParsedModule> = Vec::new();
        std::mem::swap(&mut ms, &mut self.modules);
        let found = module_position(&ms, &module.path);
        proof {
            assert(distinct_paths(ms0));
        }
        match found {
            Some(i) => {
                let ghost mi = module;
                ms.set(i, module);
                proof {
                    assert(path_of(ms0[i as int]) == p);
                    assert(ms@[i as int] == mi);
                    assert forall|a: int, b: int|
                        0 <= a < ms@.len() && 0 <= b < ms@.len() && a != b implies path_of(ms@[a]) != path_of(
                        ms@[b],
                    ) by {
                        if a != i && b != i {
                            assert(ms@[a] == ms0[a] && ms@[b] == ms0[b]);
                        } else if a == i {
                            assert(ms@[b] == ms0[b]);
                            assert(path_of(ms0[i as int]) == p);
                        } else {
                            assert(ms@[a] == ms0[a]);
                            assert(path_of(ms0[i as int]) == p);
                        }
                    }
                }
            },
            None => {
                let n = ms.len();
                ms.push(module);
                proof {
                    assert forall|a: int, b: int|
                        0 <= a < ms@.len() && 0 <= b < ms@.len() && a != b implies path_of(ms@[a]) != path_of(
                        ms@[b],
                    ) by {
                        if a < n && b < n {
                            assert(ms@[a] == ms0[a] && ms@[b] == ms0[b]);
                        } else if a < n {
                            assert(ms@[a] == ms0[a]);
                        } else {
                            assert(ms@[b] == ms0[b]);
                        }
                    }
                }
            },
        }
        self.modules = ms;
    }
}

// =========================================================================
// The first pass: declarations
// =========================================================================

/// A module path written with `::` between its segments.
pub open spec fn join_path(m: Seq<Seq<char>>) -> Seq<char>
    decreases m.len(),
{
    if m.len() == 0 {
        Seq::empty()
    } else if m.len() == 1 {
        m[0]
    } else {
        join_path(m.drop_last()) + "::"@ + m.last()
    }
}

/// A name qualified by its module (`a::b::name`); in the root module, the
/// name itself.
pub open spec fn qualified(module: Seq<Seq<char>>, name: Seq<char>) -> Seq<char> {
    if module.len() == 0 {
        name
    } else {
        join_path(module) + "::"@ + name
    }
}

/// Write a module path with `::` between its segments.
pub fn join_module_path(m: &Vec<String>) -> (r: String)
    ensures
        r@ == join_path(names_view(m@)),
{
    let ghost v = names_view(m@);
    let mut r = String::from_str("");
    proof {
        reveal_strlit("");
    }
    let n = m.len();
    for i in 0..n
        invariant
            n == m@.len(),
            v == names_view(m@),
            r@ == join_path(v.subrange(0, i as int)),
    {
        assert(v.subrange(0, i + 1).drop_last() =~= v.subrange(0, i as int));
        if i > 0 {
            r.append("::");
        }
        r.append(m[i].as_str());
        assert(v.subrange(0, i + 1).last() == m@[i as int]@);
        if i == 0 {
            assert(v.subrange(0, 0) =~= Seq::<Seq<char>>::empty());
            assert(r@ =~= join_path(v.subrange(0, 1)));
        }
    }
    assert(v.subrange(0, n as int) =~= v);
    r
}

/// A name qualified by its module.
pub fn qualified_name(module: &Vec<String>, name: &str) -> (r: String)
    ensures
        r@ == qualified(names_view(module@), name@),
{
    if module.len() == 0 {
        String::from_str(name)
    } else {
        let mut r = join_module_path(module);
        r.append("::");
        r.append(name);
        r
    }
}

/// Declaring the items of one kind of a module into a table whose names are
/// `names`: an item whose name, qualified by the module, is already a name
/// of the table is a `DuplicateDefinition` of the qualified name; any other
/// is entered under its plain name, replacing an entry of that name. Gives
/// the names of the table, the errors, and for each name entered the
/// position of the last item entered under it.
pub open spec fn declare_in(names: Set<Seq<char>>, module: Seq<Seq<char>>, items: Seq<(Seq<char>, Span)>) -> (
    Set<Seq<char>>,
    Seq<ErrV>,
    Map<Seq<char>, int>,
)
    decreases items.len(),
{
    if items.len() == 0 {
        (names, Seq::empty(), Map::empty())
    } else {
        let (ns, errs, win) = declare_in(names, module, items.drop_last());
        let (n, span) = items.last();
        let q = qualified(module, n);
        if ns.contains(q) {
            (ns, errs.push(ErrV::DuplicateDefinition { name: q, span }), win)
        } else {
            (ns.insert(n), errs, win.insert(n, items.len() - 1))
        }
    }
}

/// The names after declaring are those before and those entered; each
/// entered name points at an item of that name.
pub proof fn lemma_declare_in(names: Set<Seq<char>>, module: Seq<Seq<char>>, items: Seq<(Seq<char>, Span)>)
    ensures
        declare_in(names, module, items).0 == names.union(declare_in(names, module, items).2.dom()),
        forall|k: Seq<char>| #[trigger] declare_in(names, module, items).2.contains_key(k) ==> 0
            <= declare_in(names, module, items).2[k] < items.len() && items[declare_in(names, module, items).2[k]].0
            == k,
    decreases items.len(),
{
    if items.len() > 0 {
        let t = items.drop_last();
        lemma_declare_in(names, module, t);
        let r = declare_in(names, module, items);
        assert(r.0 =~= names.union(r.2.dom()));
        assert forall|k: Seq<char>| #[trigger] r.2.contains_key(k) implies 0 <= r.2[k] < items.len()
            && items[r.2[k]].0 == k by {
            if declare_in(names, module, t).2.contains_key(k) && r.2[k] == declare_in(names, module, t).2[k] {
                assert(items[r.2[k]] == t[r.2[k]]);
            }
        }
    }
}

/// Where the declarations of one kind stand after some modules: the names
/// in the table, and for each name entered by those modules, the module and
/// the item entered last under it.
pub ghost struct KindState {
    pub names: Set<Seq<char>>,
    pub win: Map<Seq<char>, (int, int)>,
}

/// Declaring the items of one kind of the module at position `i`.
pub open spec fn kind_step(k: KindState, module: Seq<Seq<char>>, i: int, items: Seq<(Seq<char>, Span)>) -> (
    KindState,
    Seq<ErrV>,
) {
    let r = declare_in(k.names, module, items);
    (KindState { names: r.0, win: k.win.union_prefer_right(r.2.map_values(|j: int| (i, j))) }, r.1)
}

/// The first pass over some modules: each kind's state and the errors.
pub ghost struct CollectV {
    pub agents: KindState,
    pub functions: KindState,
    pub records: KindState,
    pub enums: KindState,
    pub consts: KindState,
    pub errors: Seq<ErrV>,
}

/// The first pass over the modules in order; within a module, agents,
/// functions, records, enums, then constants. The table starts with the
/// built-in enums.
pub open spec fn collect_tree(ms: Seq<ParsedModule>) -> CollectV
    decreases ms.len(),
{
    if ms.len() == 0 {
        let none = KindState { names: Set::empty(), win: Map::empty() };
        CollectV {
            agents: none,
            functions: none,
            records: none,
            enums: KindState { names: builtin_enum_names(), win: Map::empty() },
            consts: none,
            errors: Seq::empty(),
        }
    } else {
        let c = collect_tree(ms.drop_last());
        let i = ms.len() - 1;
        let m = path_of(ms.last());
        let p = ms.last().program;
        let (a, ea) = kind_step(c.agents, m, i, agent_items(p.agents@));
        let (f, ef) = kind_step(c.functions, m, i, function_items(p.functions@));
        let (r, er) = kind_step(c.records, m, i, record_items(p.records@));
        let (e, ee) = kind_step(c.enums, m, i, enum_items(p.enums@));
        let (k, ek) = kind_step(c.consts, m, i, const_items(p.consts@));
        CollectV { agents: a, functions: f, records: r, enums: e, consts: k, errors: c.errors + ea + ef + er + ee + ek }
    }
}

/// A table of one kind agrees with its state: its names are the state's,
/// an entered name holds a declaration that `models` relates to the item
/// entered, and any other name holds what `base` allows.
pub open spec fn kind_table<V>(
    m: Map<Seq<char>, V>,
    ks: KindState,
    models: spec_fn(V, (int, int)) -> bool,
    base: spec_fn(Seq<char>, V) -> bool,
) -> bool {
    &&& m.dom() == ks.names
    &&& forall|k: Seq<char>| #[trigger] m.contains_key(k) ==> if ks.win.contains_key(k) {
        models(m[k], ks.win[k])
    } else {
        base(k, m[k])
    }
}

/// Declaring the items of one module keeps a table in agreement with its state.
pub proof fn lemma_kind_step<V>(
    m0: Map<Seq<char>, V>,
    m1: Map<Seq<char>, V>,
    ks: KindState,
    module: Seq<Seq<char>>,
    i: int,
    items: Seq<(Seq<char>, Span)>,
    models: spec_fn(V, (int, int)) -> bool,
    here: spec_fn(V, int) -> bool,
    base: spec_fn(Seq<char>, V) -> bool,
)
    requires
        kind_table(m0, ks, models, base),
        m1.dom() == declare_in(ks.names, module, items).0,
        forall|k: Seq<char>| #[trigger] m1.contains_key(k) ==> if declare_in(ks.names, module, items).2.contains_key(k) {
            here(m1[k], declare_in(ks.names, module, items).2[k])
        } else {
            m1[k] == m0[k]
        },
        forall|v: V, j: int| #[trigger] here(v, j) ==> models(v, (i, j)),
    ensures
        kind_table(m1, kind_step(ks, module, i, items).0, models, base),
{
    lemma_declare_in(ks.names, module, items);
    let r = declare_in(ks.names, module, items);
    let ks1 = kind_step(ks, module, i, items).0;
    assert forall|k: Seq<char>| #[trigger] m1.contains_key(k) implies if ks1.win.contains_key(k) {
        models(m1[k], ks1.win[k])
    } else {
        base(k, m1[k])
    } by {
        if r.2.contains_key(k) {
            assert(ks1.win[k] == (i, r.2[k]));
            assert(here(m1[k], r.2[k]));
        } else {
            assert(m0.contains_key(k));
        }
    }
}

/// The agent declared by the item at `w` (module, position).
pub open spec fn agent_decl_models(ms: Seq<ParsedModule>) -> spec_fn(crate::scope::AgentInfo, (int, int)) -> bool {
    |a: crate::scope::AgentInfo, w: (int, int)| agent_models(a, ms[w.0].program.agents@[w.1], ms[w.0].path@)
}

/// The function declared by the item at `w`.
pub open spec fn function_decl_models(ms: Seq<ParsedModule>) -> spec_fn(crate::scope::FunctionInfo, (int, int)) -> bool {
    |f: crate::scope::FunctionInfo, w: (int, int)| function_models(f, ms[w.0].program.functions@[w.1], ms[w.0].path@)
}

/// The record declared by the item at `w`.
pub open spec fn record_decl_models(ms: Seq<ParsedModule>) -> spec_fn(crate::scope::RecordInfo, (int, int)) -> bool {
    |r: crate::scope::RecordInfo, w: (int, int)| record_models(r, ms[w.0].program.records@[w.1], ms[w.0].path@)
}

/// The enum declared by the item at `w`.
pub open spec fn enum_decl_models(ms: Seq<ParsedModule>) -> spec_fn(crate::scope::EnumInfo, (int, int)) -> bool {
    |e: crate::scope::EnumInfo, w: (int, int)| enum_models(e, ms[w.0].program.enums@[w.1], ms[w.0].path@)
}

/// The constant declared by the item at `w`.
pub open spec fn const_decl_models(ms: Seq<ParsedModule>) -> spec_fn(crate::scope::ConstInfo, (int, int)) -> bool {
    |c: crate::scope::ConstInfo, w: (int, int)| const_models(c, ms[w.0].program.consts@[w.1], ms[w.0].path@)
}

/// No declaration is in the table before the first pass.
pub open spec fn no_base<V>() -> spec_fn(Seq<char>, V) -> bool {
    |k: Seq<char>, v: V| false
}

/// Before the first pass the table holds the built-in enums.
pub open spec fn builtin_enum_base() -> spec_fn(Seq<char>, crate::scope::EnumInfo) -> bool {
    |k: Seq<char>, e: crate::scope::EnumInfo| builtin_enum_names().contains(k) && e@ == spec_builtin_enums()[k]
}

/// The table `t` holds the built-ins and the declarations that the first
/// pass over `ms` entered.
pub open spec fn tree_collected(t: SymbolTable, ms: Seq<ParsedModule>) -> bool {
    let c = collect_tree(ms);
    &&& t.wf()
    &&& t.builtins() == spec_builtins()
    &&& t.supervisors() == Map::<Seq<char>, SupervisorInfo>::empty()
    &&& t.protocols() == Map::<Seq<char>, ProtocolInfo>::empty()
    &&& t.effect_handlers() == Map::<Seq<char>, EffectHandlerInfo>::empty()
    &&& kind_table(t.agents(), c.agents, agent_decl_models(ms), no_base())
    &&& kind_table(t.functions(), c.functions, function_decl_models(ms), no_base())
    &&& kind_table(t.records(), c.records, record_decl_models(ms), no_base())
    &&& kind_table(t.enums(), c.enums, enum_decl_models(ms), builtin_enum_base())
    &&& kind_table(t.consts(), c.consts, const_decl_models(ms), no_base())
}

/// Enter the agents of one module into the table.
fn collect_module_agents(
    symbols: &mut SymbolTable,
    errors: &mut Vec<CheckError>,
    path: &Vec<String>,
    decls: &Vec<crate::ast::AgentDecl>,
)
    requires
        old(symbols).wf(),
    ensures
        final(symbols).wf(),
        final(symbols).agents().dom() == declare_in(old(symbols).agents().dom(), names_view(path@), agent_items(decls@)).0,
        forall|k: Seq<char>| #[trigger] final(symbols).agents().contains_key(k) ==> if declare_in(
            old(symbols).agents().dom(),
            names_view(path@),
            agent_items(decls@),
        ).2.contains_key(k) {
            agent_models(
                final(symbols).agents()[k],
                decls@[declare_in(old(symbols).agents().dom(), names_view(path@), agent_items(decls@)).2[k]],
                path@,
            )
        } else {
            final(symbols).agents()[k] == old(symbols).agents()[k]
        },
        errs_view(final(errors)@) == errs_view(old(errors)@) + declare_in(
            old(symbols).agents().dom(),
            names_view(path@),
            agent_items(decls@),
        ).1,
        final(symbols).functions() == old(symbols).functions(),
        final(symbols).records() == old(symbols).records(),
        final(symbols).enums() == old(symbols).enums(),
        final(symbols).consts() == old(symbols).consts(),
        final(symbols).builtins() == old(symbols).builtins(),
        final(symbols).supervisors() == old(symbols).supervisors(),
        final(symbols).protocols() == old(symbols).protocols(),
        final(symbols).effect_handlers() == old(symbols).effect_handlers(),
{
    let ghost t0 = *symbols;
    let ghost e0 = errs_view(errors@);
    let ghost mv = names_view(path@);
    let ghost items = agent_items(decls@);
    let n = decls.len();
    assert(items.subrange(0, 0) =~= Seq::<(Seq<char>, Span)>::empty());
    assert(e0 + Seq::<ErrV>::empty() =~= e0);
    for i in 0..n
        invariant
            n == decls@.len(),
            items == agent_items(decls@),
            mv == names_view(path@),
            symbols.wf(),
            symbols.agents().dom() == declare_in(t0.agents().dom(), mv, items.subrange(0, i as int)).0,
            forall|k: Seq<char>| #[trigger] symbols.agents().contains_key(k) ==> if declare_in(
                t0.agents().dom(),
                mv,
                items.subrange(0, i as int),
            ).2.contains_key(k) {
                agent_models(
                    symbols.agents()[k],
                    decls@[declare_in(t0.agents().dom(), mv, items.subrange(0, i as int)).2[k]],
                    path@,
                )
            } else {
                symbols.agents()[k] == t0.agents()[k]
            },
            errs_view(errors@) == e0 + declare_in(t0.agents().dom(), mv, items.subrange(0, i as int)).1,
            symbols.functions() == t0.functions(),
            symbols.records() == t0.records(),
            symbols.enums() == t0.enums(),
            symbols.consts() == t0.consts(),
            symbols.builtins() == t0.builtins(),
            symbols.supervisors() == t0.supervisors(),
            symbols.protocols() == t0.protocols(),
            symbols.effect_handlers() == t0.effect_handlers(),
    {
        let ghost pre = items.subrange(0, i as int);
        let ghost post = items.subrange(0, i + 1);
        assert(post.drop_last() =~= pre);
        assert(post.last() == items[i as int]);
        let decl = &decls[i];
        let q = qualified_name(path, decl.name.name.as_str());
        if symbols.has_agent(q.as_str()) {
            let ghost ev = errs_view(errors@);
            let e = CheckError::duplicate_definition(q.as_str(), &decl.span);
            errors.push(e);
            assert(errs_view(errors@) =~= ev.push(e@));
        } else {
            let info = Checker::collect_agent(decl, path);
            symbols.define_agent(info);
            assert(symbols.agents().dom() =~= declare_in(t0.agents().dom(), mv, post).0);
        }
    }
    assert(items.subrange(0, n as int) =~= items);
}

/// Enter the functions of one module into the table.
fn collect_module_functions(
    symbols: &mut SymbolTable,
    errors: &mut Vec<CheckError>,
    path: &Vec<String>,
    decls: &Vec<crate::ast::FnDecl>,
)
    requires
        old(symbols).wf(),
    ensures
        final(symbols).wf(),
        final(symbols).functions().dom() == declare_in(old(symbols).functions().dom(), names_view(path@), function_items(decls@)).0,
        forall|k: Seq<char>| #[trigger] final(symbols).functions().contains_key(k) ==> if declare_in(
            old(symbols).functions().dom(),
            names_view(path@),
            function_items(decls@),
        ).2.contains_key(k) {
            function_models(
                final(symbols).functions()[k],
                decls@[declare_in(old(symbols).functions().dom(), names_view(path@), function_items(decls@)).2[k]],
                path@,
            )
        } else {
            final(symbols).functions()[k] == old(symbols).functions()[k]
        },
        errs_view(final(errors)@) == errs_view(old(errors)@) + declare_in(
            old(symbols).functions().dom(),
            names_view(path@),
            function_items(decls@),
        ).1,
        final(symbols).agents() == old(symbols).agents(),
        final(symbols).records() == old(symbols).records(),
        final(symbols).enums() == old(symbols).enums(),
        final(symbols).consts() == old(symbols).consts(),
        final(symbols).builtins() == old(symbols).builtins(),
        final(symbols).supervisors() == old(symbols).supervisors(),
        final(symbols).protocols() == old(symbols).protocols(),
        final(symbols).effect_handlers() == old(symbols).effect_handlers(),
{
    let ghost t0 = *symbols;
    let ghost e0 = errs_view(errors@);
    let ghost mv = names_view(path@);
    let ghost items = function_items(decls@);
    let n = decls.len();
    assert(items.subrange(0, 0) =~= Seq::<(Seq<char>, Span)>::empty());
    assert(e0 + Seq::<ErrV>::empty() =~= e0);
    for i in 0..n
        invariant
            n == decls@.len(),
            items == function_items(decls@),
            mv == names_view(path@),
            symbols.wf(),
            symbols.functions().dom() == declare_in(t0.functions().dom(), mv, items.subrange(0, i as int)).0,
            forall|k: Seq<char>| #[trigger] symbols.functions().contains_key(k) ==> if declare_in(
                t0.functions().dom(),
                mv,
                items.subrange(0, i as int),
            ).2.contains_key(k) {
                function_models(
                    symbols.functions()[k],
                    decls@[declare_in(t0.functions().dom(), mv, items.subrange(0, i as int)).2[k]],
                    path@,
                )
            } else {
                symbols.functions()[k] == t0.functions()[k]
            },
            errs_view(errors@) == e0 + declare_in(t0.functions().dom(), mv, items.subrange(0, i as int)).1,
            symbols.agents() == t0.agents(),
            symbols.records() == t0.records(),
            symbols.enums() == t0.enums(),
            symbols.consts() == t0.consts(),
            symbols.builtins() == t0.builtins(),
            symbols.supervisors() == t0.supervisors(),
            symbols.protocols() == t0.protocols(),
            symbols.effect_handlers() == t0.effect_handlers(),
    {
        let ghost pre = items.subrange(0, i as int);
        let ghost post = items.subrange(0, i + 1);
        assert(post.drop_last() =~= pre);
        assert(post.last() == items[i as int]);
        let decl = &decls[i];
        let q = qualified_name(path, decl.name.name.as_str());
        if symbols.has_function(q.as_str()) {
            let ghost ev = errs_view(errors@);
            let e = CheckError::duplicate_definition(q.as_str(), &decl.span);
            errors.push(e);
            assert(errs_view(errors@) =~= ev.push(e@));
        } else {
            let info = Checker::collect_function(decl, path);
            symbols.define_function(info);
            assert(symbols.functions().dom() =~= declare_in(t0.functions().dom(), mv, post).0);
        }
    }
    assert(items.subrange(0, n as int) =~= items);
}

/// Enter the records of one module into the table.
fn collect_module_records(
    symbols: &mut SymbolTable,
    errors: &mut Vec<CheckError>,
    path: &Vec<String>,
    decls: &Vec<crate::ast::RecordDecl>,
)
    requires
        old(symbols).wf(),
    ensures
        final(symbols).wf(),
        final(symbols).records().dom() == declare_in(old(symbols).records().dom(), names_view(path@), record_items(decls@)).0,
        forall|k: Seq<char>| #[trigger] final(symbols).records().contains_key(k) ==> if declare_in(
            old(symbols).records().dom(),
            names_view(path@),
            record_items(decls@),
        ).2.contains_key(k) {
            record_models(
                final(symbols).records()[k],
                decls@[declare_in(old(symbols).records().dom(), names_view(path@), record_items(decls@)).2[k]],
                path@,
            )
        } else {
            final(symbols).records()[k] == old(symbols).records()[k]
        },
        errs_view(final(errors)@) == errs_view(old(errors)@) + declare_in(
            old(symbols).records().dom(),
            names_view(path@),
            record_items(decls@),
        ).1,
        final(symbols).functions() == old(symbols).functions(),
        final(symbols).agents() == old(symbols).agents(),
        final(symbols).enums() == old(symbols).enums(),
        final(symbols).consts() == old(symbols).consts(),
        final(symbols).builtins() == old(symbols).builtins(),
        final(symbols).supervisors() == old(symbols).supervisors(),
        final(symbols).protocols() == old(symbols).protocols(),
        final(symbols).effect_handlers() == old(symbols).effect_handlers(),
{
    let ghost t0 = *symbols;
    let ghost e0 = errs_view(errors@);
    let ghost mv = names_view(path@);
    let ghost items = record_items(decls@);
    let n = decls.len();
    assert(items.subrange(0, 0) =~= Seq::<(Seq<char>, Span)>::empty());
    assert(e0 + Seq::<ErrV>::empty() =~= e0);
    for i in 0..n
        invariant
            n == decls@.len(),
            items == record_items(decls@),
            mv == names_view(path@),
            symbols.wf(),
            symbols.records().dom() == declare_in(t0.records().dom(), mv, items.subrange(0, i as int)).0,
            forall|k: Seq<char>| #[trigger] symbols.records().contains_key(k) ==> if declare_in(
                t0.records().dom(),
                mv,
                items.subrange(0, i as int),
            ).2.contains_key(k) {
                record_models(
                    symbols.records()[k],
                    decls@[declare_in(t0.records().dom(), mv, items.subrange(0, i as int)).2[k]],
                    path@,
                )
            } else {
                symbols.records()[k] == t0.records()[k]
            },
            errs_view(errors@) == e0 + declare_in(t0.records().dom(), mv, items.subrange(0, i as int)).1,
            symbols.functions() == t0.functions(),
            symbols.agents() == t0.agents(),
            symbols.enums() == t0.enums(),
            symbols.consts() == t0.consts(),
            symbols.builtins() == t0.builtins(),
            symbols.supervisors() == t0.supervisors(),
            symbols.protocols() == t0.protocols(),
            symbols.effect_handlers() == t0.effect_handlers(),
    {
        let ghost pre = items.subrange(0, i as int);
        let ghost post = items.subrange(0, i + 1);
        assert(post.drop_last() =~= pre);
        assert(post.last() == items[i as int]);
        let decl = &decls[i];
        let q = qualified_name(path, decl.name.name.as_str());
        if symbols.has_record(q.as_str()) {
            let ghost ev = errs_view(errors@);
            let e = CheckError::duplicate_definition(q.as_str(), &decl.span);
            errors.push(e);
            assert(errs_view(errors@) =~= ev.push(e@));
        } else {
            let info = Checker::collect_record(decl, path);
            symbols.define_record(info);
            assert(symbols.records().dom() =~= declare_in(t0.records().dom(), mv, post).0);
        }
    }
    assert(items.subrange(0, n as int) =~= items);
}

/// Enter the enums of one module into the table.
fn collect_module_enums(
    symbols: &mut SymbolTable,
    errors: &mut Vec<CheckError>,
    path: &Vec<String>,
    decls: &Vec<crate::ast::EnumDecl>,
)
    requires
        old(symbols).wf(),
    ensures
        final(symbols).wf(),
        final(symbols).enums().dom() == declare_in(old(symbols).enums().dom(), names_view(path@), enum_items(decls@)).0,
        forall|k: Seq<char>| #[trigger] final(symbols).enums().contains_key(k) ==> if declare_in(
            old(symbols).enums().dom(),
            names_view(path@),
            enum_items(decls@),
        ).2.contains_key(k) {
            enum_models(
                final(symbols).enums()[k],
                decls@[declare_in(old(symbols).enums().dom(), names_view(path@), enum_items(decls@)).2[k]],
                path@,
            )
        } else {
            final(symbols).enums()[k] == old(symbols).enums()[k]
        },
        errs_view(final(errors)@) == errs_view(old(errors)@) + declare_in(
            old(symbols).enums().dom(),
            names_view(path@),
            enum_items(decls@),
        ).1,
        final(symbols).functions() == old(symbols).functions(),
        final(symbols).records() == old(symbols).records(),
        final(symbols).agents() == old(symbols).agents(),
        final(symbols).consts() == old(symbols).consts(),
        final(symbols).builtins() == old(symbols).builtins(),
        final(symbols).supervisors() == old(symbols).supervisors(),
        final(symbols).protocols() == old(symbols).protocols(),
        final(symbols).effect_handlers() == old(symbols).effect_handlers(),
{
    let ghost t0 = *symbols;
    let ghost e0 = errs_view(errors@);
    let ghost mv = names_view(path@);
    let ghost items = enum_items(decls@);
    let n = decls.len();
    assert(items.subrange(0, 0) =~= Seq::<(Seq<char>, Span)>::empty());
    assert(e0 + Seq::<ErrV>::empty() =~= e0);
    for i in 0..n
        invariant
            n == decls@.len(),
            items == enum_items(decls@),
            mv == names_view(path@),
            symbols.wf(),
            symbols.enums().dom() == declare_in(t0.enums().dom(), mv, items.subrange(0, i as int)).0,
            forall|k: Seq<char>| #[trigger] symbols.enums().contains_key(k) ==> if declare_in(
                t0.enums().dom(),
                mv,
                items.subrange(0, i as int),
            ).2.contains_key(k) {
                enum_models(
                    symbols.enums()[k],
                    decls@[declare_in(t0.enums().dom(), mv, items.subrange(0, i as int)).2[k]],
                    path@,
                )
            } else {
                symbols.enums()[k] == t0.enums()[k]
            },
            errs_view(errors@) == e0 + declare_in(t0.enums().dom(), mv, items.subrange(0, i as int)).1,
            symbols.functions() == t0.functions(),
            symbols.records() == t0.records(),
            symbols.agents() == t0.agents(),
            symbols.consts() == t0.consts(),
            symbols.builtins() == t0.builtins(),
            symbols.supervisors() == t0.supervisors(),
            symbols.protocols() == t0.protocols(),
            symbols.effect_handlers() == t0.effect_handlers(),
    {
        let ghost pre = items.subrange(0, i as int);
        let ghost post = items.subrange(0, i + 1);
        assert(post.drop_last() =~= pre);
        assert(post.last() == items[i as int]);
        let decl = &decls[i];
        let q = qualified_name(path, decl.name.name.as_str());
        if symbols.has_enum(q.as_str()) {
            let ghost ev = errs_view(errors@);
            let e = CheckError::duplicate_definition(q.as_str(), &decl.span);
            errors.push(e);
            assert(errs_view(errors@) =~= ev.push(e@));
        } else {
            let info = Checker::collect_enum(decl, path);
            symbols.define_enum(info);
            assert(symbols.enums().dom() =~= declare_in(t0.enums().dom(), mv, post).0);
        }
    }
    assert(items.subrange(0, n as int) =~= items);
}

/// Enter the consts of one module into the table.
fn collect_module_consts(
    symbols: &mut SymbolTable,
    errors: &mut Vec<CheckError>,
    path: &Vec<String>,
    decls: &Vec<crate::ast::ConstDecl>,
)
    requires
        old(symbols).wf(),
    ensures
        final(symbols).wf(),
        final(symbols).consts().dom() == declare_in(old(symbols).consts().dom(), names_view(path@), const_items(decls@)).0,
        forall|k: Seq<char>| #[trigger] final(symbols).consts().contains_key(k) ==> if declare_in(
            old(symbols).consts().dom(),
            names_view(path@),
            const_items(decls@),
        ).2.contains_key(k) {
            const_models(
                final(symbols).consts()[k],
                decls@[declare_in(old(symbols).consts().dom(), names_view(path@), const_items(decls@)).2[k]],
                path@,
            )
        } else {
            final(symbols).consts()[k] == old(symbols).consts()[k]
        },
        errs_view(final(errors)@) == errs_view(old(errors)@) + declare_in(
            old(symbols).consts().dom(),
            names_view(path@),
            const_items(decls@),
        ).1,
        final(symbols).functions() == old(symbols).functions(),
        final(symbols).records() == old(symbols).records(),
        final(symbols).enums() == old(symbols).enums(),
        final(symbols).agents() == old(symbols).agents(),
        final(symbols).builtins() == old(symbols).builtins(),
        final(symbols).supervisors() == old(symbols).supervisors(),
        final(symbols).protocols() == old(symbols).protocols(),
        final(symbols).effect_handlers() == old(symbols).effect_handlers(),
{
    let ghost t0 = *symbols;
    let ghost e0 = errs_view(errors@);
    let ghost mv = names_view(path@);
    let ghost items = const_items(decls@);
    let n = decls.len();
    assert(items.subrange(0, 0) =~= Seq::<(Seq<char>, Span)>::empty());
    assert(e0 + Seq::<ErrV>::empty() =~= e0);
    for i in 0..n
        invariant
            n == decls@.len(),
            items == const_items(decls@),
            mv == names_view(path@),
            symbols.wf(),
            symbols.consts().dom() == declare_in(t0.consts().dom(), mv, items.subrange(0, i as int)).0,
            forall|k: Seq<char>| #[trigger] symbols.consts().contains_key(k) ==> if declare_in(
                t0.consts().dom(),
                mv,
                items.subrange(0, i as int),
            ).2.contains_key(k) {
                const_models(
                    symbols.consts()[k],
                    decls@[declare_in(t0.consts().dom(), mv, items.subrange(0, i as int)).2[k]],
                    path@,
                )
            } else {
                symbols.consts()[k] == t0.consts()[k]
            },
            errs_view(errors@) == e0 + declare_in(t0.consts().dom(), mv, items.subrange(0, i as int)).1,
            symbols.functions() == t0.functions(),
            symbols.records() == t0.records(),
            symbols.enums() == t0.enums(),
            symbols.agents() == t0.agents(),
            symbols.builtins() == t0.builtins(),
            symbols.supervisors() == t0.supervisors(),
            symbols.protocols() == t0.protocols(),
            symbols.effect_handlers() == t0.effect_handlers(),
    {
        let ghost pre = items.subrange(0, i as int);
        let ghost post = items.subrange(0, i + 1);
        assert(post.drop_last() =~= pre);
        assert(post.last() == items[i as int]);
        let decl = &decls[i];
        let q = qualified_name(path, decl.name.name.as_str());
        if symbols.has_const(q.as_str()) {
            let ghost ev = errs_view(errors@);
            let e = CheckError::duplicate_definition(q.as_str(), &decl.span);
            errors.push(e);
            assert(errs_view(errors@) =~= ev.push(e@));
        } else {
            let info = Checker::collect_const(decl, path);
            symbols.define_const(info);
            assert(symbols.consts().dom() =~= declare_in(t0.consts().dom(), mv, post).0);
        }
    }
    assert(items.subrange(0, n as int) =~= items);
}

/// The first pass over a tree's modules, in order: the table it builds and
/// the duplicate definitions it reports.
fn collect_tree_declarations(ms: &Vec<ParsedModule>) -> (r: (SymbolTable, Vec<CheckError>))
    ensures
        tree_collected(r.0, ms@),
        errs_view(r.1@) == collect_tree(ms@).errors,
{
    let mut symbols = SymbolTable::new();
    let mut errors: Vec<CheckError> = Vec::new();
    let n = ms.len();
    proof {
        let c = collect_tree(ms@.subrange(0, 0));
        assert(ms@.subrange(0, 0) =~= Seq::<ParsedModule>::empty());
        assert(symbols.agents().dom() =~= c.agents.names);
        assert(symbols.functions().dom() =~= c.functions.names);
        assert(symbols.records().dom() =~= c.records.names);
        assert(symbols.consts().dom() =~= c.consts.names);
        assert(symbols.enums().dom() =~= c.enums.names) by {
            assert(symbols.enums_view().dom() == symbols.enums().dom());
        }
        assert forall|k: Seq<char>| #[trigger] symbols.enums().contains_key(k) implies (builtin_enum_base())(
            k,
            symbols.enums()[k],
        ) by {
            assert(symbols.enums_view()[k] == symbols.enums()[k]@);
        }
        assert(errs_view(errors@) =~= Seq::<ErrV>::empty());
    }
    for i in 0..n
        invariant
            n == ms@.len(),
            symbols.wf(),
            symbols.builtins() == spec_builtins(),
            symbols.supervisors() == Map::<Seq<char>, SupervisorInfo>::empty(),
            symbols.protocols() == Map::<Seq<char>, ProtocolInfo>::empty(),
            symbols.effect_handlers() == Map::<Seq<char>, EffectHandlerInfo>::empty(),
            kind_table(symbols.agents(), collect_tree(ms@.subrange(0, i as int)).agents, agent_decl_models(ms@), no_base()),
            kind_table(
                symbols.functions(),
                collect_tree(ms@.subrange(0, i as int)).functions,
                function_decl_models(ms@),
                no_base(),
            ),
            kind_table(
                symbols.records(),
                collect_tree(ms@.subrange(0, i as int)).records,
                record_decl_models(ms@),
                no_base(),
            ),
            kind_table(
                symbols.enums(),
                collect_tree(ms@.subrange(0, i as int)).enums,
                enum_decl_models(ms@),
                builtin_enum_base(),
            ),
            kind_table(symbols.consts(), collect_tree(ms@.subrange(0, i as int)).consts, const_decl_models(ms@), no_base()),
            errs_view(errors@) == collect_tree(ms@.subrange(0, i as int)).errors,
    {
        let ghost c = collect_tree(ms@.subrange(0, i as int));
        let ghost pre = ms@.subrange(0, i as int);
        let ghost post = ms@.subrange(0, i + 1);
        assert(post.drop_last() =~= pre);
        assert(post.last() == ms@[i as int]);
        let m = &ms[i];
        let ghost mv = path_of(*m);
        let ghost t0 = symbols;
        collect_module_agents(&mut symbols, &mut errors, &m.path, &m.program.agents);
        proof {
            lemma_kind_step(
                t0.agents(),
                symbols.agents(),
                c.agents,
                mv,
                i as int,
                agent_items(m.program.agents@),
                agent_decl_models(ms@),
                |a: crate::scope::AgentInfo, j: int| agent_models(a, m.program.agents@[j], m.path@),
                no_base(),
            );
        }
        let ghost t1 = symbols;
        collect_module_functions(&mut symbols, &mut errors, &m.path, &m.program.functions);
        proof {
            lemma_kind_step(
                t1.functions(),
                symbols.functions(),
                c.functions,
                mv,
                i as int,
                function_items(m.program.functions@),
                function_decl_models(ms@),
                |f: crate::scope::FunctionInfo, j: int| function_models(f, m.program.functions@[j], m.path@),
                no_base(),
            );
        }
        let ghost t2 = symbols;
        collect_module_records(&mut symbols, &mut errors, &m.path, &m.program.records);
        proof {
            lemma_kind_step(
                t2.records(),
                symbols.records(),
                c.records,
                mv,
                i as int,
                record_items(m.program.records@),
                record_decl_models(ms@),
                |r: crate::scope::RecordInfo, j: int| record_models(r, m.program.records@[j], m.path@),
                no_base(),
            );
        }
        let ghost t3 = symbols;
        collect_module_enums(&mut symbols, &mut errors, &m.path, &m.program.enums);
        proof {
            lemma_kind_step(
                t3.enums(),
                symbols.enums(),
                c.enums,
                mv,
                i as int,
                enum_items(m.program.enums@),
                enum_decl_models(ms@),
                |e: crate::scope::EnumInfo, j: int| enum_models(e, m.program.enums@[j], m.path@),
                builtin_enum_base(),
            );
        }
        let ghost t4 = symbols;
        collect_module_consts(&mut symbols, &mut errors, &m.path, &m.program.consts);
        proof {
            lemma_kind_step(
                t4.consts(),
                symbols.consts(),
                c.consts,
                mv,
                i as int,
                const_items(m.program.consts@),
                const_decl_models(ms@),
                |k: crate::scope::ConstInfo, j: int| const_models(k, m.program.consts@[j], m.path@),
                no_base(),
            );
            let c1 = collect_tree(post);
            assert(c1.errors =~= errs_view(errors@));
        }
    }
    assert(ms@.subrange(0, n as int) =~= ms@);
    (symbols, errors)
}

// =========================================================================
// The second pass: imports
// =========================================================================

/// A module's imports: local name to defining module and original name.
pub type ImportsV = Map<Seq<char>, (Seq<Seq<char>>, Seq<char>)>;

/// Whether a declaration of module `target` may be imported into module
/// `from`: a private one only into its own module.
pub open spec fn access_v(is_pub: bool, target: Seq<Seq<char>>, from: Seq<Seq<char>>, item: Seq<char>, span: Span) -> (
    bool,
    Seq<ErrV>,
) {
    if !is_pub && target != from {
        (false, seq![ErrV::PrivateItem { name: item, module: join_path(target), span }])
    } else {
        (true, Seq::empty())
    }
}

/// Checking that module `target` declares `item` and that module `from`
/// may import it. The kinds are tried in order: agents, functions, records,
/// enums, constants; the table holds each declaration under its own name,
/// so the declaration named `item` is the one under that key. Gives whether
/// the import stands, and the errors.
pub open spec fn verify_import_v(
    t: SymbolTable,
    target: Seq<Seq<char>>,
    item: Seq<char>,
    from: Seq<Seq<char>>,
    span: Span,
) -> (bool, Seq<ErrV>) {
    if t.agents().contains_key(item) && agent_module(t.agents()[item]) == target {
        access_v(t.agents()[item].is_pub, target, from, item, span)
    } else if t.functions().contains_key(item) && function_module(t.functions()[item]) == target {
        access_v(t.functions()[item].is_pub, target, from, item, span)
    } else if t.records().contains_key(item) && record_module(t.records()[item]) == target {
        access_v(t.records()[item].is_pub, target, from, item, span)
    } else if t.enums().contains_key(item) && enum_module(t.enums()[item]) == target {
        access_v(t.enums()[item].is_pub, target, from, item, span)
    } else if t.consts().contains_key(item) && const_module(t.consts()[item]) == target {
        access_v(t.consts()[item].is_pub, target, from, item, span)
    } else {
        (false, seq![ErrV::ItemNotFound { name: item, module: join_path(target), span }])
    }
}

/// The names of the segments of a path.
pub open spec fn idents_view(v: Seq<Ident>) -> Seq<Seq<char>> {
    Seq::new(v.len(), |i: int| v[i].name@)
}

/// Importing, from module `target`, each public name of a list of
/// (name, is public) in order.
pub open spec fn glob_names(imp: ImportsV, target: Seq<Seq<char>>, names: Seq<(Seq<char>, bool)>) -> ImportsV
    decreases names.len(),
{
    if names.len() == 0 {
        imp
    } else {
        let m = glob_names(imp, target, names.drop_last());
        if names.last().1 {
            m.insert(names.last().0, (target, names.last().0))
        } else {
            m
        }
    }
}

/// The name and visibility of each agent.
pub open spec fn agent_pubs(ds: Seq<crate::ast::AgentDecl>) -> Seq<(Seq<char>, bool)> {
    Seq::new(ds.len(), |i: int| (ds[i].name.name@, ds[i].is_pub))
}

/// The name and visibility of each function.
pub open spec fn function_pubs(ds: Seq<crate::ast::FnDecl>) -> Seq<(Seq<char>, bool)> {
    Seq::new(ds.len(), |i: int| (ds[i].name.name@, ds[i].is_pub))
}

/// The name and visibility of each record.
pub open spec fn record_pubs(ds: Seq<crate::ast::RecordDecl>) -> Seq<(Seq<char>, bool)> {
    Seq::new(ds.len(), |i: int| (ds[i].name.name@, ds[i].is_pub))
}

/// The name and visibility of each enum.
pub open spec fn enum_pubs(ds: Seq<crate::ast::EnumDecl>) -> Seq<(Seq<char>, bool)> {
    Seq::new(ds.len(), |i: int| (ds[i].name.name@, ds[i].is_pub))
}

/// The name and visibility of each constant.
pub open spec fn const_pubs(ds: Seq<crate::ast::ConstDecl>) -> Seq<(Seq<char>, bool)> {
    Seq::new(ds.len(), |i: int| (ds[i].name.name@, ds[i].is_pub))
}

/// `use target::*`: the public declarations of the module `p`, kind by kind.
pub open spec fn glob_v(imp: ImportsV, target: Seq<Seq<char>>, p: Program) -> ImportsV {
    let m1 = glob_names(imp, target, agent_pubs(p.agents@));
    let m2 = glob_names(m1, target, function_pubs(p.functions@));
    let m3 = glob_names(m2, target, record_pubs(p.records@));
    let m4 = glob_names(m3, target, enum_pubs(p.enums@));
    glob_names(m4, target, const_pubs(p.consts@))
}

/// `use target::{item as alias, ..}`: each item in order.
pub open spec fn group_v(
    t: SymbolTable,
    from: Seq<Seq<char>>,
    target: Seq<Seq<char>>,
    span: Span,
    items: Seq<(Ident, Option<Ident>)>,
    errs: Seq<ErrV>,
    imp: ImportsV,
) -> (Seq<ErrV>, ImportsV)
    decreases items.len(),
{
    if items.len() == 0 {
        (errs, imp)
    } else {
        let (e1, m1) = group_v(t, from, target, span, items.drop_last(), errs, imp);
        let item = items.last().0.name@;
        let local = match items.last().1 {
            Some(a) => a.name@,
            None => item,
        };
        let (ok, e) = verify_import_v(t, target, item, from, span);
        (e1 + e, if ok {
            m1.insert(local, (target, item))
        } else {
            m1
        })
    }
}

/// One `use` declaration of module `from`. A simple path names its module
/// by all segments but the last (a single segment names both the module and
/// the item); a glob import of a module that is not in the tree is a
/// `ModuleNotFound`.
pub open spec fn use_v(
    t: SymbolTable,
    ms: Seq<ParsedModule>,
    from: Seq<Seq<char>>,
    u: UseDecl,
    errs: Seq<ErrV>,
    imp: ImportsV,
) -> (Seq<ErrV>, ImportsV) {
    let tp = idents_view(u.path@);
    match u.kind {
        UseKind::Simple(alias) => if tp.len() == 0 {
            (errs, imp)
        } else {
            let name = tp.last();
            let local = match alias {
                Some(a) => a.name@,
                None => name,
            };
            let target = if tp.len() > 1 {
                tp.drop_last()
            } else {
                tp
            };
            let (ok, e) = verify_import_v(t, target, name, from, u.span);
            (errs + e, if ok {
                imp.insert(local, (target, name))
            } else {
                imp
            })
        },
        UseKind::Group(items) => group_v(t, from, tp, u.span, items@, errs, imp),
        UseKind::Glob => if find_module(ms, tp) >= 0 {
            (errs, glob_v(imp, tp, ms[find_module(ms, tp)].program))
        } else {
            (errs.push(ErrV::ModuleNotFound { path: join_path(tp), span: u.span }), imp)
        },
    }
}

/// The `use` declarations of module `from`, in order: the errors and the
/// imports.
pub open spec fn uses_v(t: SymbolTable, ms: Seq<ParsedModule>, from: Seq<Seq<char>>, us: Seq<UseDecl>) -> (
    Seq<ErrV>,
    ImportsV,
)
    decreases us.len(),
{
    if us.len() == 0 {
        (Seq::empty(), Map::empty())
    } else {
        let (e, m) = uses_v(t, ms, from, us.drop_last());
        use_v(t, ms, from, us.last(), e, m)
    }
}

/// The imports of the module at position `i`.
pub open spec fn module_imports(t: SymbolTable, ms: Seq<ParsedModule>, i: int) -> (Seq<ErrV>, ImportsV) {
    uses_v(t, ms, path_of(ms[i]), ms[i].program.use_decls@)
}

/// The import errors of the first `k` modules, in order.
pub open spec fn import_errors(t: SymbolTable, ms: Seq<ParsedModule>, k: int) -> Seq<ErrV>
    decreases k,
{
    if k <= 0 {
        Seq::empty()
    } else {
        import_errors(t, ms, k - 1) + module_imports(t, ms, k - 1).0
    }
}

/// The segments of a path.
fn path_names(v: &Vec<Ident>, n: usize) -> (r: Vec<String>)
    requires
        n <= v@.len(),
    ensures
        names_view(r@) == idents_view(v@).subrange(0, n as int),
{
    let mut r: Vec<String> = Vec::new();
    for i in 0..n
        invariant
            n <= v@.len(),
            r@.len() == i,
            names_view(r@) == idents_view(v@).subrange(0, i as int),
    {
        let ghost r0 = r@;
        let s = v[i].name.clone();
        assert(s@ == v@[i as int].name@);
        r.push(s);
        assert(r@ == r0.push(s));
        assert forall|j: int| 0 <= j < i implies r@[j]@ == idents_view(v@)[j] by {
            assert(r@[j] == r0[j]);
            assert(names_view(r0)[j] == idents_view(v@).subrange(0, i as int)[j]);
        }
        assert(names_view(r@) =~= idents_view(v@).subrange(0, i + 1));
    }
    r
}

/// Add an import to a module's imports.
fn add_import(imp: &mut NameMap<(Vec<String>, String)>, local: String, target: Vec<String>, item: String)
    requires
        old(imp).wf(),
    ensures
        final(imp).wf(),
        imports_view(final(imp)@) == imports_view(old(imp)@).insert(local@, (names_view(target@), item@)),
{
    let ghost m0 = imp@;
    let ghost k = local@;
    let ghost v = (names_view(target@), item@);
    imp.insert(local, (target, item));
    assert(imports_view(imp@) =~= imports_view(m0).insert(k, v));
}

/// Check that module `target` declares `item` and that module `from` may
/// import it.
fn verify_import(
    symbols: &SymbolTable,
    target: &Vec<String>,
    item: &str,
    from: &Vec<String>,
    span: &Span,
    errors: &mut Vec<CheckError>,
) -> (r: bool)
    requires
        symbols.wf(),
    ensures
        r == verify_import_v(*symbols, names_view(target@), item@, names_view(from@), *span).0,
        errs_view(final(errors)@) == errs_view(old(errors)@) + verify_import_v(
            *symbols,
            names_view(target@),
            item@,
            names_view(from@),
            *span,
        ).1,
{
    let mut found: Option<bool> = match symbols.get_agent(item) {
        Some(info) => if same_path(&info.module, target) {
            Some(info.is_pub)
        } else {
            None
        },
        None => None,
    };
    if found.is_none() {
        found = match symbols.get_function(item) {
            Some(info) => if same_path(&info.module, target) {
                Some(info.is_pub)
            } else {
                None
            },
            None => None,
        };
    }
    if found.is_none() {
        found = match symbols.get_record(item) {
            Some(info) => if same_path(&info.module, target) {
                Some(info.is_pub)
            } else {
                None
            },
            None => None,
        };
    }
    if found.is_none() {
        found = match symbols.get_enum(item) {
            Some(info) => if same_path(&info.module, target) {
                Some(info.is_pub)
            } else {
                None
            },
            None => None,
        };
    }
    if found.is_none() {
        found = match symbols.get_const(item) {
            Some(info) => if same_path(&info.module, target) {
                Some(info.is_pub)
            } else {
                None
            },
            None => None,
        };
    }
    let ghost e0 = errs_view(errors@);
    match found {
        Some(is_pub) => {
            if !is_pub && !same_path(target, from) {
                let m = join_module_path(target);
                let e = CheckError::private_item(item, m.as_str(), span);
                errors.push(e);
                assert(errs_view(errors@) =~= e0 + seq![e@]);
                false
            } else {
                assert(errs_view(errors@) =~= e0 + Seq::<ErrV>::empty());
                true
            }
        },
        None => {
            let m = join_module_path(target);
            let e = CheckError::item_not_found(item, m.as_str(), span);
            errors.push(e);
            assert(errs_view(errors@) =~= e0 + seq![e@]);
            false
        },
    }
}

/// Import, from module `target`, the public agents of a module.
fn glob_agents(imp: &mut NameMap<(Vec<String>, String)>, target: &Vec<String>, ds: &Vec<crate::ast::AgentDecl>)
    requires
        old(imp).wf(),
    ensures
        final(imp).wf(),
        imports_view(final(imp)@) == glob_names(imports_view(old(imp)@), names_view(target@), agent_pubs(ds@)),
{
    let ghost m0 = imports_view(imp@);
    let ghost tv = names_view(target@);
    let ghost ps = agent_pubs(ds@);
    let n = ds.len();
    assert(ps.subrange(0, 0) =~= Seq::<(Seq<char>, bool)>::empty());
    for i in 0..n
        invariant
            n == ds@.len(),
            ps == agent_pubs(ds@),
            tv == names_view(target@),
            imp.wf(),
            imports_view(imp@) == glob_names(m0, tv, ps.subrange(0, i as int)),
    {
        assert(ps.subrange(0, i + 1).drop_last() =~= ps.subrange(0, i as int));
        assert(ps.subrange(0, i + 1).last() == (ds@[i as int].name.name@, ds@[i as int].is_pub));
        let d = &ds[i];
        if d.is_pub {
            add_import(imp, d.name.name.clone(), copy_strings(target), d.name.name.clone());
        }
    }
    assert(ps.subrange(0, n as int) =~= ps);
}

/// Import, from module `target`, the public functions of a module.
fn glob_functions(imp: &mut NameMap<(Vec<String>, String)>, target: &Vec<String>, ds: &Vec<crate::ast::FnDecl>)
    requires
        old(imp).wf(),
    ensures
        final(imp).wf(),
        imports_view(final(imp)@) == glob_names(imports_view(old(imp)@), names_view(target@), function_pubs(ds@)),
{
    let ghost m0 = imports_view(imp@);
    let ghost tv = names_view(target@);
    let ghost ps = function_pubs(ds@);
    let n = ds.len();
    assert(ps.subrange(0, 0) =~= Seq::<(Seq<char>, bool)>::empty());
    for i in 0..n
        invariant
            n == ds@.len(),
            ps == function_pubs(ds@),
            tv == names_view(target@),
            imp.wf(),
            imports_view(imp@) == glob_names(m0, tv, ps.subrange(0, i as int)),
    {
        assert(ps.subrange(0, i + 1).drop_last() =~= ps.subrange(0, i as int));
        assert(ps.subrange(0, i + 1).last() == (ds@[i as int].name.name@, ds@[i as int].is_pub));
        let d = &ds[i];
        if d.is_pub {
            add_import(imp, d.name.name.clone(), copy_strings(target), d.name.name.clone());
        }
    }
    assert(ps.subrange(0, n as int) =~= ps);
}

/// Import, from module `target`, the public records of a module.
fn glob_records(imp: &mut NameMap<(Vec<String>, String)>, target: &Vec<String>, ds: &Vec<crate::ast::RecordDecl>)
    requires
        old(imp).wf(),
    ensures
        final(imp).wf(),
        imports_view(final(imp)@) == glob_names(imports_view(old(imp)@), names_view(target@), record_pubs(ds@)),
{
    let ghost m0 = imports_view(imp@);
    let ghost tv = names_view(target@);
    let ghost ps = record_pubs(ds@);
    let n = ds.len();
    assert(ps.subrange(0, 0) =~= Seq::<(Seq<char>, bool)>::empty());
    for i in 0..n
        invariant
            n == ds@.len(),
            ps == record_pubs(ds@),
            tv == names_view(target@),
            imp.wf(),
            imports_view(imp@) == glob_names(m0, tv, ps.subrange(0, i as int)),
    {
        assert(ps.subrange(0, i + 1).drop_last() =~= ps.subrange(0, i as int));
        assert(ps.subrange(0, i + 1).last() == (ds@[i as int].name.name@, ds@[i as int].is_pub));
        let d = &ds[i];
        if d.is_pub {
            add_import(imp, d.name.name.clone(), copy_strings(target), d.name.name.clone());
        }
    }
    assert(ps.subrange(0, n as int) =~= ps);
}

/// Import, from module `target`, the public enums of a module.
fn glob_enums(imp: &mut NameMap<(Vec<String>, String)>, target: &Vec<String>, ds: &Vec<crate::ast::EnumDecl>)
    requires
        old(imp).wf(),
    ensures
        final(imp).wf(),
        imports_view(final(imp)@) == glob_names(imports_view(old(imp)@), names_view(target@), enum_pubs(ds@)),
{
    let ghost m0 = imports_view(imp@);
    let ghost tv = names_view(target@);
    let ghost ps = enum_pubs(ds@);
    let n = ds.len();
    assert(ps.subrange(0, 0) =~= Seq::<(Seq<char>, bool)>::empty());
    for i in 0..n
        invariant
            n == ds@.len(),
            ps == enum_pubs(ds@),
            tv == names_view(target@),
            imp.wf(),
            imports_view(imp@) == glob_names(m0, tv, ps.subrange(0, i as int)),
    {
        assert(ps.subrange(0, i + 1).drop_last() =~= ps.subrange(0, i as int));
        assert(ps.subrange(0, i + 1).last() == (ds@[i as int].name.name@, ds@[i as int].is_pub));
        let d = &ds[i];
        if d.is_pub {
            add_import(imp, d.name.name.clone(), copy_strings(target), d.name.name.clone());
        }
    }
    assert(ps.subrange(0, n as int) =~= ps);
}

/// Import, from module `target`, the public consts of a module.
fn glob_consts(imp: &mut NameMap<(Vec<String>, String)>, target: &Vec<String>, ds: &Vec<crate::ast::ConstDecl>)
    requires
        old(imp).wf(),
    ensures
        final(imp).wf(),
        imports_view(final(imp)@) == glob_names(imports_view(old(imp)@), names_view(target@), const_pubs(ds@)),
{
    let ghost m0 = imports_view(imp@);
    let ghost tv = names_view(target@);
    let ghost ps = const_pubs(ds@);
    let n = ds.len();
    assert(ps.subrange(0, 0) =~= Seq::<(Seq<char>, bool)>::empty());
    for i in 0..n
        invariant
            n == ds@.len(),
            ps == const_pubs(ds@),
            tv == names_view(target@),
            imp.wf(),
            imports_view(imp@) == glob_names(m0, tv, ps.subrange(0, i as int)),
    {
        assert(ps.subrange(0, i + 1).drop_last() =~= ps.subrange(0, i as int));
        assert(ps.subrange(0, i + 1).last() == (ds@[i as int].name.name@, ds@[i as int].is_pub));
        let d = &ds[i];
        if d.is_pub {
            add_import(imp, d.name.name.clone(), copy_strings(target), d.name.name.clone());
        }
    }
    assert(ps.subrange(0, n as int) =~= ps);
}

/// `use target::*`: import the public declarations of module `p`.
fn import_glob(imp: &mut NameMap<(Vec<String>, String)>, target: &Vec<String>, p: &Program)
    requires
        old(imp).wf(),
    ensures
        final(imp).wf(),
        imports_view(final(imp)@) == glob_v(imports_view(old(imp)@), names_view(target@), *p),
{
    glob_agents(imp, target, &p.agents);
    glob_functions(imp, target, &p.functions);
    glob_records(imp, target, &p.records);
    glob_enums(imp, target, &p.enums);
    glob_consts(imp, target, &p.consts);
}

/// `use target::{item as alias, ..}`.
fn import_group(
    symbols: &SymbolTable,
    from: &Vec<String>,
    target: &Vec<String>,
    span: &Span,
    items: &Vec<(Ident, Option<Ident>)>,
    errors: &mut Vec<CheckError>,
    imp: &mut NameMap<(Vec<String>, String)>,
)
    requires
        symbols.wf(),
        old(imp).wf(),
    ensures
        final(imp).wf(),
        (errs_view(final(errors)@), imports_view(final(imp)@)) == group_v(
            *symbols,
            names_view(from@),
            names_view(target@),
            *span,
            items@,
            errs_view(old(errors)@),
            imports_view(old(imp)@),
        ),
{
    let ghost e0 = errs_view(errors@);
    let ghost m0 = imports_view(imp@);
    let ghost fv = names_view(from@);
    let ghost tv = names_view(target@);
    let n = items.len();
    assert(items@.subrange(0, 0) =~= Seq::<(Ident, Option<Ident>)>::empty());
    for i in 0..n
        invariant
            n == items@.len(),
            symbols.wf(),
            fv == names_view(from@),
            tv == names_view(target@),
            imp.wf(),
            (errs_view(errors@), imports_view(imp@)) == group_v(*symbols, fv, tv, *span, items@.subrange(0, i as int), e0, m0),
    {
        assert(items@.subrange(0, i + 1).drop_last() =~= items@.subrange(0, i as int));
        assert(items@.subrange(0, i + 1).last() == items@[i as int]);
        let (item, alias) = &items[i];
        let local: String = match alias {
            Some(a) => a.name.clone(),
            None => item.name.clone(),
        };
        if verify_import(symbols, target, item.name.as_str(), from, span, errors) {
            add_import(imp, local, copy_strings(target), item.name.clone());
        }
    }
    assert(items@.subrange(0, n as int) =~= items@);
}

/// One `use` declaration of module `from`.
fn import_use(
    symbols: &SymbolTable,
    ms: &Vec<ParsedModule>,
    from: &Vec<String>,
    u: &UseDecl,
    errors: &mut Vec<CheckError>,
    imp: &mut NameMap<(Vec<String>, String)>,
)
    requires
        symbols.wf(),
        old(imp).wf(),
    ensures
        final(imp).wf(),
        (errs_view(final(errors)@), imports_view(final(imp)@)) == use_v(
            *symbols,
            ms@,
            names_view(from@),
            *u,
            errs_view(old(errors)@),
            imports_view(old(imp)@),
        ),
{
    let ghost tp = idents_view(u.path@);
    let n = u.path.len();
    match &u.kind {
        UseKind::Simple(alias) => {
            if n == 0 {
                return;
            }
            let name = u.path[n - 1].name.clone();
            let local: String = match alias {
                Some(a) => a.name.clone(),
                None => name.clone(),
            };
            let target = if n > 1 {
                path_names(&u.path, n - 1)
            } else {
                path_names(&u.path, n)
            };
            proof {
                assert(tp.drop_last() =~= idents_view(u.path@).subrange(0, n - 1));
                assert(tp =~= idents_view(u.path@).subrange(0, n as int));
                assert(tp.last() == name@);
            }
            if verify_import(symbols, &target, name.as_str(), from, &u.span, errors) {
                add_import(imp, local, target, name);
            }
        },
        UseKind::Group(items) => {
            let target = path_names(&u.path, n);
            assert(tp =~= idents_view(u.path@).subrange(0, n as int));
            import_group(symbols, from, &target, &u.span, items, errors, imp);
        },
        UseKind::Glob => {
            let target = path_names(&u.path, n);
            assert(tp =~= idents_view(u.path@).subrange(0, n as int));
            let pos = module_position(ms, &target);
            proof {
                lemma_find_module(ms@, names_view(target@));
            }
            match pos {
                Some(k) => {
                    import_glob(imp, &target, &ms[k].program);
                },
                None => {
                    let ghost e0 = errs_view(errors@);
                    let p = join_module_path(&target);
                    let e = CheckError::module_not_found(p.as_str(), &u.span);
                    errors.push(e);
                    assert(errs_view(errors@) =~= e0.push(e@));
                },
            }
        },
    }
}

/// Resolve the `use` declarations of the module at position `k`: its
/// imports, with the errors appended to `errors`.
fn resolve_imports(symbols: &SymbolTable, ms: &Vec<ParsedModule>, k: usize, errors: &mut Vec<CheckError>) -> (r:
    NameMap<(Vec<String>, String)>)
    requires
        symbols.wf(),
        k < ms@.len(),
    ensures
        r.wf(),
        imports_view(r@) == module_imports(*symbols, ms@, k as int).1,
        errs_view(final(errors)@) == errs_view(old(errors)@) + module_imports(*symbols, ms@, k as int).0,
{
    let m = &ms[k];
    let uses = &m.program.use_decls;
    let mut errs: Vec<CheckError> = Vec::new();
    let mut imp: NameMap<(Vec<String>, String)> = NameMap::new();
    let ghost fv = path_of(*m);
    let n = uses.len();
    proof {
        assert(uses@.subrange(0, 0) =~= Seq::<UseDecl>::empty());
        assert(errs_view(errs@) =~= Seq::<ErrV>::empty());
        assert(imports_view(imp@) =~= Map::<Seq<char>, (Seq<Seq<char>>, Seq<char>)>::empty());
    }
    for i in 0..n
        invariant
            n == uses@.len(),
            symbols.wf(),
            imp.wf(),
            fv == names_view(m.path@),
            (errs_view(errs@), imports_view(imp@)) == uses_v(*symbols, ms@, fv, uses@.subrange(0, i as int)),
    {
        assert(uses@.subrange(0, i + 1).drop_last() =~= uses@.subrange(0, i as int));
        assert(uses@.subrange(0, i + 1).last() == uses@[i as int]);
        import_use(symbols, ms, &m.path, &uses[i], &mut errs, &mut imp);
    }
    assert(uses@.subrange(0, n as int) =~= uses@);
    let ghost e0 = errors@;
    let ghost e1 = errs@;
    errors.append(&mut errs);
    assert(errs_view(errors@) =~= errs_view(e0) + errs_view(e1));
    imp
}

// =========================================================================
// The third pass: bodies; the fourth: the entry agent
// =========================================================================

/// The emit types after a module recorded `emitted`: the types of the
/// agents that are in the table are written over the earlier ones.
pub open spec fn write_back(t: SymbolTable, e: Map<Seq<char>, TypeV>, emitted: Map<Seq<char>, TypeV>) -> Map<
    Seq<char>,
    TypeV,
> {
    Map::new(
        |k: Seq<char>| e.contains_key(k) || (emitted.contains_key(k) && t.agents().contains_key(k)),
        |k: Seq<char>|
            if emitted.contains_key(k) && t.agents().contains_key(k) {
                emitted[k]
            } else {
                e[k]
            },
    )
}

/// The state after checking the agents and functions of the module at
/// position `i`, given the emit types recorded before it.
pub open spec fn module_st(t: SymbolTable, ms: Seq<ParsedModule>, i: int, e: Map<Seq<char>, TypeV>) -> crate::checker::St {
    module_bodies_v(tree_module_ctx(t, path_of(ms[i]), module_imports(t, ms, i).1, e), initial_st(), ms[i].program)
}

/// Checking the first `k` modules in order: their errors, and the emit
/// types recorded.
pub open spec fn bodies_tree(t: SymbolTable, ms: Seq<ParsedModule>, k: int) -> (Seq<ErrV>, Map<Seq<char>, TypeV>)
    decreases k,
{
    if k <= 0 {
        (Seq::empty(), Map::empty())
    } else {
        let (errs, e) = bodies_tree(t, ms, k - 1);
        let st = module_st(t, ms, k - 1, e);
        (errs + st.errors, write_back(t, e, st.emits))
    }
}

/// The entry agent named by `run` in the root module must be an agent of
/// the root module, have no beliefs and have an `on start` handler.
pub open spec fn tree_entry_v(t: SymbolTable, ms: Seq<ParsedModule>, root: Seq<Seq<char>>) -> Seq<ErrV> {
    let k = find_module(ms, root);
    if k < 0 {
        Seq::empty()
    } else {
        match ms[k].program.run_agent {
            None => Seq::empty(),
            Some(r) => if t.agents().contains_key(r.name@) && agent_module(t.agents()[r.name@]).len() == 0 {
                let a = t.agents()[r.name@];
                (if a.beliefs@.dom().len() > 0 {
                    seq![ErrV::EntryAgentHasBeliefs { name: r.name@, span: r.span }]
                } else {
                    Seq::empty()
                }) + (if a.has_start_handler {
                    Seq::empty()
                } else {
                    seq![ErrV::EntryAgentNoStart { name: r.name@, span: r.span }]
                })
            } else {
                seq![ErrV::UndefinedAgent { name: r.name@, span: r.span }]
            },
        }
    }
}

/// The errors of checking a tree: the duplicates of the first pass, the
/// import errors of each module, the errors of each module's bodies, and
/// those of the root module's entry agent.
pub open spec fn tree_errors(t: SymbolTable, ms: Seq<ParsedModule>, root: Seq<Seq<char>>) -> Seq<ErrV> {
    collect_tree(ms).errors + import_errors(t, ms, ms.len() as int) + bodies_tree(t, ms, ms.len() as int).0
        + tree_entry_v(t, ms, root)
}

/// The result of checking a tree: the table of the first pass, with each
/// agent's emit type as the last module that saw it emit recorded it, and
/// the errors.
pub open spec fn tree_checks_to(ms: Seq<ParsedModule>, root: Seq<Seq<char>>, r: ModuleCheckResult) -> bool {
    exists|t: SymbolTable|
        #![trigger tree_collected(t, ms)]
        tree_collected(t, ms) && errs_view(r.errors@) == tree_errors(t, ms, root) && with_emits(
            t,
            r.symbols,
            bodies_tree(t, ms, ms.len() as int).1,
        )
}

/// Result of checking a complete module tree.
pub struct ModuleCheckResult {
    /// The combined symbol table from all modules.
    pub symbols: SymbolTable,
    /// Any errors encountered during checking.
    pub errors: Vec<CheckError>,
}

/// Write the emit types a module recorded over the earlier ones, for the
/// agents that are in the table.
fn write_back_emits(symbols: &SymbolTable, emits: &mut NameMap<Type>, emitted: &NameMap<Type>)
    requires
        symbols.wf(),
        old(emits).wf(),
        emitted.wf(),
    ensures
        final(emits).wf(),
        final(emits)@.map_values(|t: Type| t@) == write_back(
            *symbols,
            old(emits)@.map_values(|t: Type| t@),
            emitted@.map_values(|t: Type| t@),
        ),
{
    let ghost e0 = emits@.map_values(|t: Type| t@);
    let ghost ev = emitted@.map_values(|t: Type| t@);
    let es = emitted.entries();
    let n = es.len();
    for i in 0..n
        invariant
            n == es@.len(),
            symbols.wf(),
            emits.wf(),
            distinct_keys(es@),
            forall|j: int| 0 <= j < n ==> #[trigger] emitted@.contains_key(es@[j].0@),
            forall|j: int| 0 <= j < n ==> emitted@[#[trigger] es@[j].0@] == es@[j].1,
            forall|k: Seq<char>| #[trigger] emitted@.contains_key(k) ==> exists|j: int| 0 <= j < n && es@[j].0@ == k,
            e0 == old(emits)@.map_values(|t: Type| t@),
            ev == emitted@.map_values(|t: Type| t@),
            forall|k: Seq<char>| #[trigger] emits@.contains_key(k) <==> (e0.contains_key(k) || (exists|j: int|
                0 <= j < i && es@[j].0@ == k) && symbols.agents().contains_key(k)),
            forall|k: Seq<char>| #[trigger] emits@.contains_key(k) ==> emits@[k]@ == (if (exists|j: int|
                0 <= j < i && es@[j].0@ == k) && symbols.agents().contains_key(k) {
                ev[k]
            } else {
                e0[k]
            }),
    {
        let name = es[i].0.as_str();
        if symbols.has_agent(name) {
            let ty = es[i].1.deep_copy();
            let ghost tv = ty@;
            emits.insert(es[i].0.clone(), ty);
            proof {
                assert(ev[name@] == tv);
            }
        }
        proof {
            assert forall|k: Seq<char>| #[trigger] emits@.contains_key(k) <==> (e0.contains_key(k) || (exists|j: int|
                0 <= j < i + 1 && es@[j].0@ == k) && symbols.agents().contains_key(k)) by {
                if k == name@ {
                    assert(es@[i as int].0@ == k);
                } else if exists|j: int| 0 <= j < i + 1 && es@[j].0@ == k {
                    let j = choose|j: int| 0 <= j < i + 1 && es@[j].0@ == k;
                    assert(j < i);
                }
            }
            assert forall|k: Seq<char>| #[trigger] emits@.contains_key(k) implies emits@[k]@ == (if (exists|j: int|
                0 <= j < i + 1 && es@[j].0@ == k) && symbols.agents().contains_key(k) {
                ev[k]
            } else {
                e0[k]
            }) by {
                if k == name@ {
                    assert(es@[i as int].0@ == k);
                } else if exists|j: int| 0 <= j < i + 1 && es@[j].0@ == k {
                    let j = choose|j: int| 0 <= j < i + 1 && es@[j].0@ == k;
                    assert(j < i);
                }
            }
        }
    }
    proof {
        let w = write_back(*symbols, e0, ev);
        let fin = emits@.map_values(|t: Type| t@);
        assert forall|k: Seq<char>| #[trigger] fin.contains_key(k) <==> w.contains_key(k) by {
            if emitted@.contains_key(k) {
                let j = choose|j: int| 0 <= j < n && es@[j].0@ == k;
            }
        }
        assert forall|k: Seq<char>| #[trigger] fin.contains_key(k) implies fin[k] == w[k] by {
            if emitted@.contains_key(k) {
                let j = choose|j: int| 0 <= j < n && es@[j].0@ == k;
            }
        }
        assert(emits@.map_values(|t: Type| t@) =~= w);
    }
}

/// Validate the entry agent named by `run` in the root module.
fn validate_tree_entry(symbols: &SymbolTable, program: &Program, errors: &mut Vec<CheckError>)
    requires
        symbols.wf(),
    ensures
        errs_view(final(errors)@) == errs_view(old(errors)@) + (match program.run_agent {
            None => Seq::empty(),
            Some(r) => if symbols.agents().contains_key(r.name@) && agent_module(symbols.agents()[r.name@]).len()
                == 0 {
                let a = symbols.agents()[r.name@];
                (if a.beliefs@.dom().len() > 0 {
                    seq![ErrV::EntryAgentHasBeliefs { name: r.name@, span: r.span }]
                } else {
                    Seq::empty()
                }) + (if a.has_start_handler {
                    Seq::empty()
                } else {
                    seq![ErrV::EntryAgentNoStart { name: r.name@, span: r.span }]
                })
            } else {
                seq![ErrV::UndefinedAgent { name: r.name@, span: r.span }]
            },
        }),
{
    let ghost e0 = errs_view(errors@);
    let Some(run_agent) = &program.run_agent else {
        assert(errs_view(errors@) =~= e0 + Seq::<ErrV>::empty());
        return;
    };
    let entry_name = run_agent.name.as_str();
    let facts: Option<(bool, bool)> = match symbols.get_agent(entry_name) {
        Some(agent) => if agent.module.len() == 0 {
            Some((agent.beliefs.len() > 0, agent.has_start_handler))
        } else {
            None
        },
        None => None,
    };
    match facts {
        None => {
            let e = CheckError::undefined_agent(entry_name, &run_agent.span);
            errors.push(e);
            assert(errs_view(errors@) =~= e0 + seq![e@]);
        },
        Some((has_beliefs, has_start_handler)) => {
            let ghost e1: Seq<ErrV> = if has_beliefs {
                seq![ErrV::EntryAgentHasBeliefs { name: entry_name@, span: run_agent.span }]
            } else {
                Seq::empty()
            };
            let ghost e2: Seq<ErrV> = if has_start_handler {
                Seq::empty()
            } else {
                seq![ErrV::EntryAgentNoStart { name: entry_name@, span: run_agent.span }]
            };
            if has_beliefs {
                errors.push(CheckError::entry_agent_has_beliefs(entry_name, &run_agent.span));
            }
            assert(errs_view(errors@) =~= e0 + e1);
            if !has_start_handler {
                errors.push(CheckError::entry_agent_no_start(entry_name, &run_agent.span));
            }
            assert(errs_view(errors@) =~= e0 + e1 + e2);
            assert(e0 + e1 + e2 =~= e0 + (e1 + e2));
        },
    }
}

/// Check an entire module tree for semantic errors: collect the
/// declarations of all modules, resolve each module's `use` declarations,
/// check each module's agents and functions with the names it sees, and
/// validate the root module's entry agent. Each pass takes the modules in
/// the order the tree holds them.
pub fn check_module_tree(tree: &ModuleTree) -> (r: ModuleCheckResult)
    ensures
        tree_checks_to(tree.modules(), tree.root(), r),
{
    proof {
        use_type_invariant(tree);
    }
    let ms = &tree.modules;
    let n = ms.len();
    // Declarations.
    let (mut symbols, mut errors) = collect_tree_declarations(ms);
    let ghost t = symbols;
    let ghost ec = errs_view(errors@);
    // Imports.
    let mut imports: Vec<NameMap<(Vec<String>, String)>> = Vec::new();
    assert(errs_view(errors@) =~= ec + import_errors(t, ms@, 0));
    for i in 0..n
        invariant
            n == ms@.len(),
            symbols == t,
            t.wf(),
            imports@.len() == i,
            forall|j: int| 0 <= j < i ==> (#[trigger] imports@[j]).wf(),
            forall|j: int| 0 <= j < i ==> imports_view((#[trigger] imports@[j])@) == module_imports(t, ms@, j).1,
            errs_view(errors@) == ec + import_errors(t, ms@, i as int),
    {
        let imp = resolve_imports(&symbols, ms, i, &mut errors);
        imports.push(imp);
        assert(ec + import_errors(t, ms@, i as int) + module_imports(t, ms@, i as int).0 =~= ec + import_errors(
            t,
            ms@,
            i + 1,
        ));
    }
    let ghost ei = errs_view(errors@);
    // Bodies.
    let mut emits: NameMap<Type> = NameMap::new();
    assert(emits@.map_values(|t: Type| t@) =~= bodies_tree(t, ms@, 0).1);
    assert(errs_view(errors@) =~= ei + bodies_tree(t, ms@, 0).0);
    for i in 0..n
        invariant
            n == ms@.len(),
            symbols == t,
            t.wf(),
            imports@.len() == n - i,
            forall|j: int| 0 <= j < n - i ==> (#[trigger] imports@[j]).wf(),
            forall|j: int| 0 <= j < n - i ==> imports_view((#[trigger] imports@[j])@) == module_imports(t, ms@, i + j).1,
            emits.wf(),
            emits@.map_values(|t: Type| t@) == bodies_tree(t, ms@, i as int).1,
            errs_view(errors@) == ei + bodies_tree(t, ms@, i as int).0,
    {
        let ghost imports0 = imports@;
        let imp = imports.remove(0);
        assert forall|j: int| 0 <= j < n - (i + 1) implies imports_view((#[trigger] imports@[j])@) == module_imports(
            t,
            ms@,
            (i + 1) + j,
        ).1 && imports@[j].wf() by {
            assert(imports@[j] == imports0[j + 1]);
        }
        let m = &ms[i];
        let ghost e = emits@.map_values(|t: Type| t@);
        let (t1, mut errs, frozen, emitted) = Checker::check_tree_module(
            symbols,
            copy_strings(&m.path),
            imp,
            emits,
            &m.program,
        );
        symbols = t1;
        emits = frozen;
        write_back_emits(&symbols, &mut emits, &emitted);
        let ghost e_before = errs_view(errors@);
        let ghost e_mod = errs_view(errs@);
        errors.append(&mut errs);
        proof {
            assert(errs_view(errors@) =~= e_before + e_mod);
            assert(e_mod == module_st(t, ms@, i as int, e).errors);
            assert(ei + bodies_tree(t, ms@, i as int).0 + e_mod =~= ei + bodies_tree(t, ms@, i + 1).0);
        }
    }
    let ghost eb = errs_view(errors@);
    // The entry agent.
    let pos = module_position(ms, &tree.root);
    proof {
        lemma_find_module(ms@, tree.root());
    }
    match pos {
        Some(k) => {
            validate_tree_entry(&symbols, &ms[k].program, &mut errors);
        },
        None => {
            assert(errs_view(errors@) =~= eb + Seq::<ErrV>::empty());
        },
    }
    // Every agent's emit type: the last one recorded.
    let ghost ef = emits@.map_values(|t: Type| t@);
    let es = emits.entries();
    let n2 = es.len();
    for i in 0..n2
        invariant
            n2 == es@.len(),
            distinct_keys(es@),
            forall|j: int| 0 <= j < n2 ==> #[trigger] emits@.contains_key(es@[j].0@),
            forall|j: int| 0 <= j < n2 ==> emits@[#[trigger] es@[j].0@] == es@[j].1,
            forall|k: Seq<char>| #[trigger] emits@.contains_key(k) ==> exists|j: int| 0 <= j < n2 && es@[j].0@ == k,
            ef == emits@.map_values(|t: Type| t@),
            symbols.wf(),
            symbols.agents().dom() == t.agents().dom(),
            forall|k: Seq<char>| #[trigger] symbols.agents().contains_key(k) ==> crate::checker::agent_decl_same(
                symbols.agents()[k],
                t.agents()[k],
            ) && crate::checker::opt_tv(symbols.agents()[k].emit_type) == (if exists|j: int|
                0 <= j < i && es@[j].0@ == k {
                Some(ef[k])
            } else {
                None
            }),
            symbols.supervisors() == t.supervisors(),
            symbols.protocols() == t.protocols(),
            symbols.effect_handlers() == t.effect_handlers(),
            symbols.functions() == t.functions(),
            symbols.builtins() == t.builtins(),
            symbols.records() == t.records(),
            symbols.enums() == t.enums(),
            symbols.consts() == t.consts(),
            tree_collected(t, ms@),
    {
        let name = es[i].0.as_str();
        let ty = es[i].1.deep_copy();
        match symbols.get_agent_mut(name) {
            Some(agent) => {
                agent.emit_type = Some(ty);
            },
            None => {},
        }
        proof {
            assert forall|k: Seq<char>| #[trigger] symbols.agents().contains_key(k) implies crate::checker::agent_decl_same(
                symbols.agents()[k],
                t.agents()[k],
            ) && crate::checker::opt_tv(symbols.agents()[k].emit_type) == (if exists|j: int|
                0 <= j < i + 1 && es@[j].0@ == k {
                Some(ef[k])
            } else {
                None
            }) by {
                if k == name@ {
                    assert(es@[i as int].0@ == k);
                } else {
                    if exists|j: int| 0 <= j < i + 1 && es@[j].0@ == k {
                        let j = choose|j: int| 0 <= j < i + 1 && es@[j].0@ == k;
                        assert(j < i);
                    }
                }
            }
        }
    }
    let r = ModuleCheckResult { symbols, errors };
    proof {
        assert forall|k: Seq<char>| #[trigger] t.agents().contains_key(k) implies t.agents()[k].emit_type is None by {
            let c = collect_tree(ms@);
            assert(c.agents.names == t.agents().dom());
        }
        assert(with_emits(t, r.symbols, ef)) by {
            assert forall|k: Seq<char>| #[trigger] r.symbols.agents().contains_key(k) implies crate::checker::opt_tv(
                r.symbols.agents()[k].emit_type,
            ) == (if ef.contains_key(k) {
                Some(ef[k])
            } else {
                None
            }) by {
                if ef.contains_key(k) {
                    let j = choose|j: int| 0 <= j < n2 && es@[j].0@ == k;
                }
            }
        }
        assert(errs_view(r.errors@) =~= tree_errors(t, ms@, tree.root()));
    }
    r
}

} // verus!
