//! Scopes and the symbol table used for name resolution.

use vstd::prelude::*;
use crate::names::NameMap;
use crate::names::NameSet;
use crate::names::distinct_keys;
use crate::text::str_eq;
use crate::types::Type;
use crate::types::TypeV;
use crate::types::view_types;

verus! {

/// Information about a declared agent.
#[derive(Debug)]
pub struct AgentInfo {
    /// The agent's name.
    pub name: String,
    /// Beliefs declared by this agent (name -> type).
    pub beliefs: NameMap<Type>,
    /// The type of messages this agent can receive (from `on message` handler).
    pub message_type: Option<Type>,
    /// The type this agent emits (inferred from `emit` calls).
    pub emit_type: Option<Type>,
    /// Whether this agent has an `on start` handler.
    pub has_start_handler: bool,
    /// Whether this agent is public (visible outside its module).
    pub is_pub: bool,
    /// The module path where this agent is defined.
    pub module: Vec<String>,
}

impl AgentInfo {
    /// The agent's tables are well formed.
    pub open spec fn wf(&self) -> bool {
        self.beliefs.wf()
    }
}

/// Information about a declared function.
#[derive(Debug)]
pub struct FunctionInfo {
    /// The function's name.
    pub name: String,
    /// Type parameters for generic functions (e.g., `["T", "U"]` for `fn map<T, U>`).
    pub type_params: Vec<String>,
    /// Parameter names and types in order.
    pub params: Vec<(String, Type)>,
    /// Return type.
    pub return_type: Type,
    /// Whether this function is public (visible outside its module).
    pub is_pub: bool,
    /// The module path where this function is defined.
    pub module: Vec<String>,
    /// Whether this function can fail (has a `fails` annotation).
    pub is_fallible: bool,
}

/// Information about a built-in function.
#[derive(Debug)]
pub struct BuiltinInfo {
    /// The function's name.
    pub name: &'static str,
    /// Parameter types (None means the call is checked specially, e.g. generic or variadic).
    pub params: Option<Vec<Type>>,
    /// Return type.
    pub return_type: Type,
    /// Whether this function can fail (has a `fails` annotation).
    pub is_fallible: bool,
}

/// The model of a built-in function's signature.
pub ghost struct BuiltinV {
    pub params: Option<Seq<TypeV>>,
    pub return_type: TypeV,
    pub is_fallible: bool,
}

impl View for BuiltinInfo {
    type V = BuiltinV;

    open spec fn view(&self) -> BuiltinV {
        BuiltinV {
            params: match self.params {
                Some(p) => Some(view_types(p@)),
                None => None,
            },
            return_type: self.return_type@,
            is_fallible: self.is_fallible,
        }
    }
}

impl Default for BuiltinInfo {
    fn default() -> (r: Self)
        ensures
            r.name@ == ""@,
            r.params is None,
            r.return_type@ == TypeV::Unit,
            !r.is_fallible,
    {
        BuiltinInfo { name: "", params: None, return_type: Type::Unit, is_fallible: false }
    }
}

/// Information about a declared record type.
#[derive(Debug)]
pub struct RecordInfo {
    /// The record's name.
    pub name: String,
    /// Type parameters for generic records (e.g., `["A", "B"]` for `record Pair<A, B>`).
    pub type_params: Vec<String>,
    /// Fields declared by this record (name -> type).
    pub fields: NameMap<Type>,
    /// Field order (for positional access if needed).
    pub field_order: Vec<String>,
    /// Whether this record is public.
    pub is_pub: bool,
    /// The module path where this record is defined.
    pub module: Vec<String>,
}

impl RecordInfo {
    /// The record's tables are well formed.
    pub open spec fn wf(&self) -> bool {
        self.fields.wf()
    }
}

/// Information about a declared enum type.
#[derive(Debug)]
pub struct EnumInfo {
    /// The enum's name.
    pub name: String,
    /// Type parameters for generic enums (e.g., `["T"]` for `enum Tree<T>`).
    pub type_params: Vec<String>,
    /// Variants with optional payload types.
    pub variants: Vec<(String, Option<Type>)>,
    /// Whether this enum is public.
    pub is_pub: bool,
    /// The module path where this enum is defined.
    pub module: Vec<String>,
}

/// The model of an optional payload type.
pub open spec fn payload_view(p: Option<Type>) -> Option<TypeV> {
    match p {
        Some(t) => Some(t@),
        None => None,
    }
}

/// The model of a list of names.
pub open spec fn names_view(s: Seq<String>) -> Seq<Seq<char>> {
    Seq::new(s.len(), |i: int| s[i]@)
}

/// The model of an enum declaration.
pub ghost struct EnumV {
    pub name: Seq<char>,
    pub type_params: Seq<Seq<char>>,
    pub variants: Seq<(Seq<char>, Option<TypeV>)>,
    pub is_pub: bool,
    pub module: Seq<Seq<char>>,
}

impl View for EnumInfo {
    type V = EnumV;

    open spec fn view(&self) -> EnumV {
        EnumV {
            name: self.name@,
            type_params: names_view(self.type_params@),
            variants: Seq::new(
                self.variants@.len(),
                |i: int| (self.variants@[i].0@, payload_view(self.variants@[i].1)),
            ),
            is_pub: self.is_pub,
            module: names_view(self.module@),
        }
    }
}

/// Position of the first variant with the given name, or -1 if there is none.
pub open spec fn variant_index(vs: Seq<(String, Option<Type>)>, name: Seq<char>) -> int
    decreases vs.len(),
{
    if vs.len() == 0 {
        -1
    } else {
        let i = variant_index(vs.drop_last(), name);
        if i >= 0 {
            i
        } else if vs.last().0@ == name {
            vs.len() - 1
        } else {
            -1
        }
    }
}

/// The first-match position is the least position with that name.
pub proof fn lemma_variant_index(vs: Seq<(String, Option<Type>)>, name: Seq<char>)
    ensures
        -1 <= variant_index(vs, name) < vs.len(),
        variant_index(vs, name) >= 0 ==> vs[variant_index(vs, name)].0@ == name,
        forall|j: int|
            0 <= j < vs.len() && (variant_index(vs, name) < 0 || j < variant_index(vs, name))
                ==> #[trigger] vs[j].0@ != name,
    decreases vs.len(),
{
    if vs.len() > 0 {
        lemma_variant_index(vs.drop_last(), name);
        assert forall|j: int|
            0 <= j < vs.len() && (variant_index(vs, name) < 0 || j < variant_index(vs, name))
                implies #[trigger] vs[j].0@ != name by {
            if j < vs.len() - 1 {
                assert(vs.drop_last()[j] == vs[j]);
            }
        }
    }
}

impl EnumInfo {
    /// Check if all variants are unit variants (no payloads).
    pub fn all_variants_unit(&self) -> (r: bool)
        ensures
            r == forall|i: int| 0 <= i < self.variants@.len() ==> (#[trigger] self.variants@[i]).1 is None,
    {
        let n = self.variants.len();
        for i in 0..n
            invariant
                n == self.variants@.len(),
                forall|j: int| 0 <= j < i ==> (#[trigger] self.variants@[j]).1 is None,
        {
            if self.variants[i].1.is_some() {
                return false;
            }
        }
        true
    }

    /// Position of the first variant named `name`.
    fn find_variant(&self, name: &str) -> (r: Option<usize>)
        ensures
            match r {
                Some(i) => i as int == variant_index(self.variants@, name@) && i < self.variants@.len(),
                None => variant_index(self.variants@, name@) < 0,
            },
    {
        proof {
            lemma_variant_index(self.variants@, name@);
        }
        let n = self.variants.len();
        for i in 0..n
            invariant
                n == self.variants@.len(),
                -1 <= variant_index(self.variants@, name@) < n,
                variant_index(self.variants@, name@) >= 0 ==> self.variants@[variant_index(
                    self.variants@,
                    name@,
                )].0@ == name@,
                forall|j: int|
                    0 <= j < n && (variant_index(self.variants@, name@) < 0 || j
                        < variant_index(self.variants@, name@)) ==> #[trigger] self.variants@[j].0@
                        != name@,
                variant_index(self.variants@, name@) < 0 || i <= variant_index(
                    self.variants@,
                    name@,
                ),
        {
            if str_eq(self.variants[i].0.as_str(), name) {
                return Some(i);
            }
        }
        None
    }

    /// Get the payload type for a variant: `Some(None)` if the variant exists
    /// without a payload, `None` if the variant does not exist.
    pub fn get_variant_payload(&self, name: &str) -> (r: Option<Option<&Type>>)
        ensures
            variant_index(self.variants@, name@) < 0 ==> r is None,
            variant_index(self.variants@, name@) >= 0 ==> r is Some && (r.unwrap() is Some
                <==> self.variants@[variant_index(self.variants@, name@)].1 is Some) && (
            r.unwrap() is Some ==> *r.unwrap().unwrap() == self.variants@[variant_index(
                self.variants@,
                name@,
            )].1.unwrap()),
    {
        match self.find_variant(name) {
            Some(i) => Some(self.variants[i].1.as_ref()),
            None => None,
        }
    }

    /// Check if a variant exists.
    pub fn has_variant(&self, name: &str) -> (r: bool)
        ensures
            r == exists|i: int| 0 <= i < self.variants@.len() && #[trigger] self.variants@[i].0@ == name@,
    {
        proof {
            lemma_variant_index(self.variants@, name@);
        }
        let r = self.find_variant(name).is_some();
        proof {
            if r {
                let i = variant_index(self.variants@, name@);
                assert(self.variants@[i].0@ == name@);
            }
        }
        r
    }
}

/// Information about a declared constant.
#[derive(Debug)]
pub struct ConstInfo {
    /// The constant's name.
    pub name: String,
    /// The constant's type.
    pub ty: Type,
    /// Whether this constant is public.
    pub is_pub: bool,
    /// The module path where this constant is defined.
    pub module: Vec<String>,
}

/// Information about a tool function.
#[derive(Debug)]
pub struct ToolFnInfo {
    /// Parameter names and types.
    pub params: Vec<(String, Type)>,
    /// Return type.
    pub return_ty: Type,
}

/// The model of a tool function's signature.
pub ghost struct ToolFnV {
    pub params: Seq<(Seq<char>, TypeV)>,
    pub return_ty: TypeV,
}

/// The models of named parameters.
pub open spec fn view_params(ps: Seq<(String, Type)>) -> Seq<(Seq<char>, TypeV)> {
    Seq::new(ps.len(), |i: int| (ps[i].0@, ps[i].1@))
}

impl View for ToolFnInfo {
    type V = ToolFnV;

    open spec fn view(&self) -> ToolFnV {
        ToolFnV { params: view_params(self.params@), return_ty: self.return_ty@ }
    }
}

/// Information about a declared tool.
#[derive(Debug)]
pub struct ToolInfo {
    /// The tool's name.
    pub name: String,
    /// Functions provided by this tool.
    pub functions: NameMap<ToolFnInfo>,
    /// Whether this tool is public.
    pub is_pub: bool,
}

impl ToolInfo {
    /// The tool's tables are well formed.
    pub open spec fn wf(&self) -> bool {
        self.functions.wf()
    }

    /// The models of the tool's functions.
    pub open spec fn functions_view(&self) -> Map<Seq<char>, ToolFnV> {
        self.functions@.map_values(|f: ToolFnInfo| f@)
    }
}

/// The model of a tool declaration.
pub ghost struct ToolV {
    pub name: Seq<char>,
    pub functions: Map<Seq<char>, ToolFnV>,
    pub is_pub: bool,
}

impl View for ToolInfo {
    type V = ToolV;

    open spec fn view(&self) -> ToolV {
        ToolV { name: self.name@, functions: self.functions_view(), is_pub: self.is_pub }
    }
}

/// Information about a declared supervisor.
#[derive(Debug)]
pub struct SupervisorInfo {
    /// The supervisor's name.
    pub name: String,
    /// Names of child agents this supervisor manages.
    pub children: Vec<String>,
    /// Whether this supervisor is public.
    pub is_pub: bool,
    /// The module path where this supervisor is defined.
    pub module: Vec<String>,
}

/// Information about a protocol step.
#[derive(Debug)]
pub struct ProtocolStepInfo {
    /// The sending role.
    pub sender: String,
    /// The receiving role.
    pub receiver: String,
    /// The message type being sent.
    pub message_type: Type,
}

/// Information about a declared protocol.
#[derive(Debug)]
pub struct ProtocolInfo {
    /// The protocol's name.
    pub name: String,
    /// The steps in the protocol.
    pub steps: Vec<ProtocolStepInfo>,
    /// The roles participating in this protocol.
    pub roles: NameSet,
    /// Whether this protocol is public.
    pub is_pub: bool,
    /// The module path where this protocol is defined.
    pub module: Vec<String>,
}

impl ProtocolInfo {
    /// The protocol's tables are well formed.
    pub open spec fn wf(&self) -> bool {
        self.roles.wf()
    }
}

/// Information about an effect handler.
#[derive(Debug)]
pub struct EffectHandlerInfo {
    /// The handler's name.
    pub name: String,
    /// The effect this handler handles (e.g., "Infer").
    pub effect: String,
    /// Configuration values (key -> value as string).
    pub config: NameMap<String>,
    /// Whether this handler is public.
    pub is_pub: bool,
    /// The module path where this handler is defined.
    pub module: Vec<String>,
}

impl EffectHandlerInfo {
    /// The handler's tables are well formed.
    pub open spec fn wf(&self) -> bool {
        self.config.wf()
    }
}

/// A scope containing variable bindings and tool declarations.
#[derive(Debug)]
pub struct Scope {
    /// Variables in this scope (name -> type).
    variables: NameMap<Type>,
    /// Tools available in this scope.
    tools: NameMap<ToolInfo>,
}

impl Scope {
    /// The scope's tables are well formed.
    pub closed spec fn wf(&self) -> bool {
        &&& self.variables.wf()
        &&& self.tools.wf()
        &&& forall|k: Seq<char>| #[trigger] self.tools@.contains_key(k) ==> self.tools@[k].wf()
    }

    /// The variables of the scope and their types.
    pub closed spec fn variables(&self) -> Map<Seq<char>, Type> {
        self.variables@
    }

    /// The tools of the scope.
    pub closed spec fn tools(&self) -> Map<Seq<char>, ToolInfo> {
        self.tools@
    }

    /// Create a new empty scope.
    pub fn new() -> (r: Self)
        ensures
            r.wf(),
            r.variables() == Map::<Seq<char>, Type>::empty(),
            r.tools() == Map::<Seq<char>, ToolInfo>::empty(),
    {
        Scope { variables: NameMap::new(), tools: NameMap::new() }
    }

    /// Define a variable in this scope, replacing an earlier one of that name.
    pub fn define(&mut self, name: String, ty: Type)
        requires
            old(self).wf(),
        ensures
            final(self).wf(),
            final(self).variables() == old(self).variables().insert(name@, ty),
            final(self).tools() == old(self).tools(),
    {
        self.variables.insert(name, ty);
    }

    /// Look up a variable in this scope.
    pub fn get(&self, name: &str) -> (r: Option<&Type>)
        requires
            self.wf(),
        ensures
            r is Some <==> self.variables().contains_key(name@),
            r matches Some(t) ==> *t == self.variables()[name@],
    {
        self.variables.get(name)
    }

    /// Check if a variable is defined in this scope.
    pub fn contains(&self, name: &str) -> (r: bool)
        requires
            self.wf(),
        ensures
            r == self.variables().contains_key(name@),
    {
        self.variables.contains(name)
    }

    /// Look up a tool in this scope.
    pub fn lookup_tool(&self, name: &str) -> (r: Option<&ToolInfo>)
        requires
            self.wf(),
        ensures
            r is Some <==> self.tools().contains_key(name@),
            r matches Some(t) ==> *t == self.tools()[name@] && t.wf(),
    {
        self.tools.get(name)
    }

    /// Registers a tool, replacing an earlier one of that name.
    pub fn add_tool(&mut self, tool: ToolInfo)
        requires
            old(self).wf(),
            tool.wf(),
        ensures
            final(self).wf(),
            final(self).tools() == old(self).tools().insert(tool.name@, tool),
            final(self).variables() == old(self).variables(),
    {
        let key = tool.name.clone();
        self.tools.insert(key, tool);
    }
}


/// The global symbol table containing all top-level declarations.
#[derive(Debug)]
pub struct SymbolTable {
    agents: NameMap<AgentInfo>,
    supervisors: NameMap<SupervisorInfo>,
    protocols: NameMap<ProtocolInfo>,
    effect_handlers: NameMap<EffectHandlerInfo>,
    functions: NameMap<FunctionInfo>,
    builtins: NameMap<BuiltinInfo>,
    records: NameMap<RecordInfo>,
    enums: NameMap<EnumInfo>,
    consts: NameMap<ConstInfo>,
}

impl SymbolTable {
    /// The table is well formed: every table has distinct names and every
    /// stored declaration is itself well formed.
    pub closed spec fn wf(&self) -> bool {
        &&& self.agents.wf()
        &&& forall|k: Seq<char>| #[trigger] self.agents@.contains_key(k) ==> self.agents@[k].wf()
        &&& self.supervisors.wf()
        &&& self.protocols.wf()
        &&& forall|k: Seq<char>| #[trigger] self.protocols@.contains_key(k) ==> self.protocols@[k].wf()
        &&& self.effect_handlers.wf()
        &&& forall|k: Seq<char>| #[trigger] self.effect_handlers@.contains_key(k) ==> self.effect_handlers@[k].wf()
        &&& self.functions.wf()
        &&& self.builtins.wf()
        &&& forall|k: Seq<char>| #[trigger] self.builtins@.contains_key(k) ==> self.builtins@[k].name@ == k
        &&& self.records.wf()
        &&& forall|k: Seq<char>| #[trigger] self.records@.contains_key(k) ==> self.records@[k].wf()
        &&& self.enums.wf()
        &&& self.consts.wf()
    }

    /// Every declaration is stored under its own name.
    pub open spec fn keyed_by_name(&self) -> bool {
        &&& forall|k: Seq<char>| #[trigger] self.agents().contains_key(k) ==> self.agents()[k].name@ == k
        &&& forall|k: Seq<char>| #[trigger] self.supervisors().contains_key(k) ==> self.supervisors()[k].name@ == k
        &&& forall|k: Seq<char>| #[trigger] self.protocols().contains_key(k) ==> self.protocols()[k].name@ == k
        &&& forall|k: Seq<char>| #[trigger] self.effect_handlers().contains_key(k) ==> self.effect_handlers()[k].name@ == k
        &&& forall|k: Seq<char>| #[trigger] self.functions().contains_key(k) ==> self.functions()[k].name@ == k
        &&& forall|k: Seq<char>| #[trigger] self.records().contains_key(k) ==> self.records()[k].name@ == k
        &&& forall|k: Seq<char>| #[trigger] self.enums().contains_key(k) ==> self.enums()[k].name@ == k
        &&& forall|k: Seq<char>| #[trigger] self.consts().contains_key(k) ==> self.consts()[k].name@ == k
    }

    /// The built-in functions' signatures.
    pub closed spec fn builtins(&self) -> Map<Seq<char>, BuiltinV> {
        self.builtins@.map_values(|b: BuiltinInfo| b@)
    }

    /// The built-in functions as stored.
    pub closed spec fn builtin_infos(&self) -> Map<Seq<char>, BuiltinInfo> {
        self.builtins@
    }

    /// The declared agents, by name.
    pub closed spec fn agents(&self) -> Map<Seq<char>, AgentInfo> {
        self.agents@
    }

    /// The declared supervisors, by name.
    pub closed spec fn supervisors(&self) -> Map<Seq<char>, SupervisorInfo> {
        self.supervisors@
    }

    /// The declared protocols, by name.
    pub closed spec fn protocols(&self) -> Map<Seq<char>, ProtocolInfo> {
        self.protocols@
    }

    /// The declared effect handlers, by name.
    pub closed spec fn effect_handlers(&self) -> Map<Seq<char>, EffectHandlerInfo> {
        self.effect_handlers@
    }

    /// The declared functions, by name.
    pub closed spec fn functions(&self) -> Map<Seq<char>, FunctionInfo> {
        self.functions@
    }

    /// The declared records, by name.
    pub closed spec fn records(&self) -> Map<Seq<char>, RecordInfo> {
        self.records@
    }

    /// The declared enums, by name.
    pub closed spec fn enums(&self) -> Map<Seq<char>, EnumInfo> {
        self.enums@
    }

    /// The declared consts, by name.
    pub closed spec fn consts(&self) -> Map<Seq<char>, ConstInfo> {
        self.consts@
    }

    /// Every declaration table other than the built-ins' is as in `other`.
    pub open spec fn declarations_unchanged(&self, other: SymbolTable) -> bool {
        &&& self.agents() == other.agents()
        &&& self.supervisors() == other.supervisors()
        &&& self.protocols() == other.protocols()
        &&& self.effect_handlers() == other.effect_handlers()
        &&& self.functions() == other.functions()
        &&& self.records() == other.records()
        &&& self.enums() == other.enums()
        &&& self.consts() == other.consts()
    }

    /// Every table other than the built-ins' is empty.
    pub open spec fn declarations_empty(&self) -> bool {
        &&& self.agents() == Map::<Seq<char>, AgentInfo>::empty()
        &&& self.supervisors() == Map::<Seq<char>, SupervisorInfo>::empty()
        &&& self.protocols() == Map::<Seq<char>, ProtocolInfo>::empty()
        &&& self.effect_handlers() == Map::<Seq<char>, EffectHandlerInfo>::empty()
        &&& self.functions() == Map::<Seq<char>, FunctionInfo>::empty()
        &&& self.records() == Map::<Seq<char>, RecordInfo>::empty()
        &&& self.enums() == Map::<Seq<char>, EnumInfo>::empty()
        &&& self.consts() == Map::<Seq<char>, ConstInfo>::empty()
    }

    /// An empty table with no built-ins.
    pub(crate) fn empty() -> (r: Self)
        ensures
            r.wf(),
            r.declarations_empty(),
            r.builtins() == Map::<Seq<char>, BuiltinV>::empty(),
    {
        let r = SymbolTable {
            agents: NameMap::new(),
            supervisors: NameMap::new(),
            protocols: NameMap::new(),
            effect_handlers: NameMap::new(),
            functions: NameMap::new(),
            builtins: NameMap::new(),
            records: NameMap::new(),
            enums: NameMap::new(),
            consts: NameMap::new(),
        };
        assert(r.builtins() =~= Map::<Seq<char>, BuiltinV>::empty());
        r
    }

    /// Registers a built-in function, replacing an earlier one of that name.
    pub(crate) fn add_builtin(&mut self, info: BuiltinInfo)
        requires
            old(self).wf(),
        ensures
            final(self).wf(),
            final(self).builtins() == old(self).builtins().insert(info.name@, info@),
            final(self).builtin_infos() == old(self).builtin_infos().insert(info.name@, info),
            final(self).agents() == old(self).agents(),
            final(self).supervisors() == old(self).supervisors(),
            final(self).protocols() == old(self).protocols(),
            final(self).effect_handlers() == old(self).effect_handlers(),
            final(self).functions() == old(self).functions(),
            final(self).records() == old(self).records(),
            final(self).enums() == old(self).enums(),
            final(self).consts() == old(self).consts(),
    {
        let ghost v = info@;
        let key = String::from_str(info.name);
        self.builtins.insert(key, info);
        assert(self.builtins() =~= old(self).builtins().insert(key@, v));
    }

    /// Define an agent, replacing an earlier one of the same name.
    #[verifier::spinoff_prover]
    pub fn define_agent(&mut self, info: AgentInfo)
        requires
            old(self).wf(),
            info.wf(),
        ensures
            final(self).wf(),
            final(self).agents() == old(self).agents().insert(info.name@, info),
            final(self).supervisors() == old(self).supervisors(),
            final(self).protocols() == old(self).protocols(),
            final(self).effect_handlers() == old(self).effect_handlers(),
            final(self).functions() == old(self).functions(),
            final(self).records() == old(self).records(),
            final(self).enums() == old(self).enums(),
            final(self).consts() == old(self).consts(),
            final(self).builtins() == old(self).builtins(),
            final(self).builtin_infos() == old(self).builtin_infos(),
            old(self).keyed_by_name() ==> final(self).keyed_by_name(),
            final(self).agents().dom().finite(),
            final(self).agents().dom().len() == old(self).agents().dom().len() + (if old(self).agents().contains_key(info.name@) {
                0int
            } else {
                1int
            }),
    {
        proof {
            self.agents.lemma_finite();
        }
        let ghost nm = info.name@;
        let key = info.name.clone();
        self.agents.insert(key, info);
        proof {
            self.agents.lemma_finite();
            if old(self).keyed_by_name() {
                assert forall|q: Seq<char>| #[trigger] self.agents().contains_key(q) implies self.agents()[q].name@ == q by {
                    if q != nm {
                        assert(old(self).agents().contains_key(q));
                    }
                }
            }
        }
    }

    /// Look up an agent by name.
    pub fn get_agent(&self, name: &str) -> (r: Option<&AgentInfo>)
        requires
            self.wf(),
        ensures
            r is Some <==> self.agents().contains_key(name@),
            r matches Some(i) ==> *i == self.agents()[name@] && i.wf(),
    {
        self.agents.get(name)
    }

    /// Check if an agent is defined.
    pub fn has_agent(&self, name: &str) -> (r: bool)
        requires
            self.wf(),
        ensures
            r == self.agents().contains_key(name@),
    {
        self.agents.contains(name)
    }

    /// All declared agents: each name once, with its declaration.
    pub fn iter_agents(&self) -> (r: &[(String, AgentInfo)])
        requires
            self.wf(),
        ensures
            distinct_keys(r@),
            r@.len() == self.agents().dom().len(),
            forall|i: int| 0 <= i < r@.len() ==> #[trigger] self.agents().contains_key(r@[i].0@),
            forall|i: int| 0 <= i < r@.len() ==> self.agents()[#[trigger] r@[i].0@] == r@[i].1,
            forall|k: Seq<char>| #[trigger] self.agents().contains_key(k) ==> exists|i: int|
                0 <= i < r@.len() && r@[i].0@ == k,
            self.keyed_by_name() ==> forall|i: int| 0 <= i < r@.len() ==> (#[trigger] r@[i]).1.name@ == r@[i].0@,
    {
        let r = self.agents.entries();
        proof {
            if self.keyed_by_name() {
                assert forall|i: int| 0 <= i < r@.len() implies (#[trigger] r@[i]).1.name@ == r@[i].0@ by {
                    assert(self.agents().contains_key(r@[i].0@));
                }
            }
        }
        r
    }

    /// Define a supervisor, replacing an earlier one of the same name.
    #[verifier::spinoff_prover]
    pub fn define_supervisor(&mut self, info: SupervisorInfo)
        requires
            old(self).wf(),
        ensures
            final(self).wf(),
            final(self).supervisors() == old(self).supervisors().insert(info.name@, info),
            final(self).agents() == old(self).agents(),
            final(self).protocols() == old(self).protocols(),
            final(self).effect_handlers() == old(self).effect_handlers(),
            final(self).functions() == old(self).functions(),
            final(self).records() == old(self).records(),
            final(self).enums() == old(self).enums(),
            final(self).consts() == old(self).consts(),
            final(self).builtins() == old(self).builtins(),
            final(self).builtin_infos() == old(self).builtin_infos(),
            old(self).keyed_by_name() ==> final(self).keyed_by_name(),
            final(self).supervisors().dom().finite(),
            final(self).supervisors().dom().len() == old(self).supervisors().dom().len() + (if old(self).supervisors().contains_key(info.name@) {
                0int
            } else {
                1int
            }),
    {
        proof {
            self.supervisors.lemma_finite();
        }
        let ghost nm = info.name@;
        let key = info.name.clone();
        self.supervisors.insert(key, info);
        proof {
            self.supervisors.lemma_finite();
            if old(self).keyed_by_name() {
                assert forall|q: Seq<char>| #[trigger] self.supervisors().contains_key(q) implies self.supervisors()[q].name@ == q by {
                    if q != nm {
                        assert(old(self).supervisors().contains_key(q));
                    }
                }
            }
        }
    }

    /// Look up a supervisor by name.
    pub fn get_supervisor(&self, name: &str) -> (r: Option<&SupervisorInfo>)
        requires
            self.wf(),
        ensures
            r is Some <==> self.supervisors().contains_key(name@),
            r matches Some(i) ==> *i == self.supervisors()[name@],
    {
        self.supervisors.get(name)
    }

    /// Check if a supervisor is defined.
    pub fn has_supervisor(&self, name: &str) -> (r: bool)
        requires
            self.wf(),
        ensures
            r == self.supervisors().contains_key(name@),
    {
        self.supervisors.contains(name)
    }

    /// All declared supervisors: each name once, with its declaration.
    pub fn iter_supervisors(&self) -> (r: &[(String, SupervisorInfo)])
        requires
            self.wf(),
        ensures
            distinct_keys(r@),
            r@.len() == self.supervisors().dom().len(),
            forall|i: int| 0 <= i < r@.len() ==> #[trigger] self.supervisors().contains_key(r@[i].0@),
            forall|i: int| 0 <= i < r@.len() ==> self.supervisors()[#[trigger] r@[i].0@] == r@[i].1,
            forall|k: Seq<char>| #[trigger] self.supervisors().contains_key(k) ==> exists|i: int|
                0 <= i < r@.len() && r@[i].0@ == k,
            self.keyed_by_name() ==> forall|i: int| 0 <= i < r@.len() ==> (#[trigger] r@[i]).1.name@ == r@[i].0@,
    {
        let r = self.supervisors.entries();
        proof {
            if self.keyed_by_name() {
                assert forall|i: int| 0 <= i < r@.len() implies (#[trigger] r@[i]).1.name@ == r@[i].0@ by {
                    assert(self.supervisors().contains_key(r@[i].0@));
                }
            }
        }
        r
    }

    /// Define a protocol, replacing an earlier one of the same name.
    #[verifier::spinoff_prover]
    pub fn define_protocol(&mut self, info: ProtocolInfo)
        requires
            old(self).wf(),
            info.wf(),
        ensures
            final(self).wf(),
            final(self).protocols() == old(self).protocols().insert(info.name@, info),
            final(self).agents() == old(self).agents(),
            final(self).supervisors() == old(self).supervisors(),
            final(self).effect_handlers() == old(self).effect_handlers(),
            final(self).functions() == old(self).functions(),
            final(self).records() == old(self).records(),
            final(self).enums() == old(self).enums(),
            final(self).consts() == old(self).consts(),
            final(self).builtins() == old(self).builtins(),
            final(self).builtin_infos() == old(self).builtin_infos(),
            old(self).keyed_by_name() ==> final(self).keyed_by_name(),
            final(self).protocols().dom().finite(),
            final(self).protocols().dom().len() == old(self).protocols().dom().len() + (if old(self).protocols().contains_key(info.name@) {
                0int
            } else {
                1int
            }),
    {
        proof {
            self.protocols.lemma_finite();
        }
        let ghost nm = info.name@;
        let key = info.name.clone();
        self.protocols.insert(key, info);
        proof {
            self.protocols.lemma_finite();
            if old(self).keyed_by_name() {
                assert forall|q: Seq<char>| #[trigger] self.protocols().contains_key(q) implies self.protocols()[q].name@ == q by {
                    if q != nm {
                        assert(old(self).protocols().contains_key(q));
                    }
                }
            }
        }
    }

    /// Look up a protocol by name.
    pub fn get_protocol(&self, name: &str) -> (r: Option<&ProtocolInfo>)
        requires
            self.wf(),
        ensures
            r is Some <==> self.protocols().contains_key(name@),
            r matches Some(i) ==> *i == self.protocols()[name@] && i.wf(),
    {
        self.protocols.get(name)
    }

    /// Check if a protocol is defined.
    pub fn has_protocol(&self, name: &str) -> (r: bool)
        requires
            self.wf(),
        ensures
            r == self.protocols().contains_key(name@),
    {
        self.protocols.contains(name)
    }

    /// All declared protocols: each name once, with its declaration.
    pub fn iter_protocols(&self) -> (r: &[(String, ProtocolInfo)])
        requires
            self.wf(),
        ensures
            distinct_keys(r@),
            r@.len() == self.protocols().dom().len(),
            forall|i: int| 0 <= i < r@.len() ==> #[trigger] self.protocols().contains_key(r@[i].0@),
            forall|i: int| 0 <= i < r@.len() ==> self.protocols()[#[trigger] r@[i].0@] == r@[i].1,
            forall|k: Seq<char>| #[trigger] self.protocols().contains_key(k) ==> exists|i: int|
                0 <= i < r@.len() && r@[i].0@ == k,
            self.keyed_by_name() ==> forall|i: int| 0 <= i < r@.len() ==> (#[trigger] r@[i]).1.name@ == r@[i].0@,
    {
        let r = self.protocols.entries();
        proof {
            if self.keyed_by_name() {
                assert forall|i: int| 0 <= i < r@.len() implies (#[trigger] r@[i]).1.name@ == r@[i].0@ by {
                    assert(self.protocols().contains_key(r@[i].0@));
                }
            }
        }
        r
    }

    /// Define an effect handler, replacing an earlier one of the same name.
    #[verifier::spinoff_prover]
    pub fn define_effect_handler(&mut self, info: EffectHandlerInfo)
        requires
            old(self).wf(),
            info.wf(),
        ensures
            final(self).wf(),
            final(self).effect_handlers() == old(self).effect_handlers().insert(info.name@, info),
            final(self).agents() == old(self).agents(),
            final(self).supervisors() == old(self).supervisors(),
            final(self).protocols() == old(self).protocols(),
            final(self).functions() == old(self).functions(),
            final(self).records() == old(self).records(),
            final(self).enums() == old(self).enums(),
            final(self).consts() == old(self).consts(),
            final(self).builtins() == old(self).builtins(),
            final(self).builtin_infos() == old(self).builtin_infos(),
            old(self).keyed_by_name() ==> final(self).keyed_by_name(),
            final(self).effect_handlers().dom().finite(),
            final(self).effect_handlers().dom().len() == old(self).effect_handlers().dom().len() + (if old(self).effect_handlers().contains_key(info.name@) {
                0int
            } else {
                1int
            }),
    {
        proof {
            self.effect_handlers.lemma_finite();
        }
        let ghost nm = info.name@;
        let key = info.name.clone();
        self.effect_handlers.insert(key, info);
        proof {
            self.effect_handlers.lemma_finite();
            if old(self).keyed_by_name() {
                assert forall|q: Seq<char>| #[trigger] self.effect_handlers().contains_key(q) implies self.effect_handlers()[q].name@ == q by {
                    if q != nm {
                        assert(old(self).effect_handlers().contains_key(q));
                    }
                }
            }
        }
    }

    /// Look up an effect handler by name.
    pub fn get_effect_handler(&self, name: &str) -> (r: Option<&EffectHandlerInfo>)
        requires
            self.wf(),
        ensures
            r is Some <==> self.effect_handlers().contains_key(name@),
            r matches Some(i) ==> *i == self.effect_handlers()[name@] && i.wf(),
    {
        self.effect_handlers.get(name)
    }

    /// Check if an effect handler is defined.
    pub fn has_effect_handler(&self, name: &str) -> (r: bool)
        requires
            self.wf(),
        ensures
            r == self.effect_handlers().contains_key(name@),
    {
        self.effect_handlers.contains(name)
    }

    /// All declared effect handlers: each name once, with its declaration.
    pub fn iter_effect_handlers(&self) -> (r: &[(String, EffectHandlerInfo)])
        requires
            self.wf(),
        ensures
            distinct_keys(r@),
            r@.len() == self.effect_handlers().dom().len(),
            forall|i: int| 0 <= i < r@.len() ==> #[trigger] self.effect_handlers().contains_key(r@[i].0@),
            forall|i: int| 0 <= i < r@.len() ==> self.effect_handlers()[#[trigger] r@[i].0@] == r@[i].1,
            forall|k: Seq<char>| #[trigger] self.effect_handlers().contains_key(k) ==> exists|i: int|
                0 <= i < r@.len() && r@[i].0@ == k,
            self.keyed_by_name() ==> forall|i: int| 0 <= i < r@.len() ==> (#[trigger] r@[i]).1.name@ == r@[i].0@,
    {
        let r = self.effect_handlers.entries();
        proof {
            if self.keyed_by_name() {
                assert forall|i: int| 0 <= i < r@.len() implies (#[trigger] r@[i]).1.name@ == r@[i].0@ by {
                    assert(self.effect_handlers().contains_key(r@[i].0@));
                }
            }
        }
        r
    }

    /// Define a function, replacing an earlier one of the same name.
    #[verifier::spinoff_prover]
    pub fn define_function(&mut self, info: FunctionInfo)
        requires
            old(self).wf(),
        ensures
            final(self).wf(),
            final(self).functions() == old(self).functions().insert(info.name@, info),
            final(self).agents() == old(self).agents(),
            final(self).supervisors() == old(self).supervisors(),
            final(self).protocols() == old(self).protocols(),
            final(self).effect_handlers() == old(self).effect_handlers(),
            final(self).records() == old(self).records(),
            final(self).enums() == old(self).enums(),
            final(self).consts() == old(self).consts(),
            final(self).builtins() == old(self).builtins(),
            final(self).builtin_infos() == old(self).builtin_infos(),
            old(self).keyed_by_name() ==> final(self).keyed_by_name(),
            final(self).functions().dom().finite(),
            final(self).functions().dom().len() == old(self).functions().dom().len() + (if old(self).functions().contains_key(info.name@) {
                0int
            } else {
                1int
            }),
    {
        proof {
            self.functions.lemma_finite();
        }
        let ghost nm = info.name@;
        let key = info.name.clone();
        self.functions.insert(key, info);
        proof {
            self.functions.lemma_finite();
            if old(self).keyed_by_name() {
                assert forall|q: Seq<char>| #[trigger] self.functions().contains_key(q) implies self.functions()[q].name@ == q by {
                    if q != nm {
                        assert(old(self).functions().contains_key(q));
                    }
                }
            }
        }
    }

    /// Look up a function by name.
    pub fn get_function(&self, name: &str) -> (r: Option<&FunctionInfo>)
        requires
            self.wf(),
        ensures
            r is Some <==> self.functions().contains_key(name@),
            r matches Some(i) ==> *i == self.functions()[name@],
    {
        self.functions.get(name)
    }

    /// Check if a function is defined.
    pub fn has_function(&self, name: &str) -> (r: bool)
        requires
            self.wf(),
        ensures
            r == self.functions().contains_key(name@),
    {
        self.functions.contains(name)
    }

    /// All declared functions: each name once, with its declaration.
    pub fn iter_functions(&self) -> (r: &[(String, FunctionInfo)])
        requires
            self.wf(),
        ensures
            distinct_keys(r@),
            r@.len() == self.functions().dom().len(),
            forall|i: int| 0 <= i < r@.len() ==> #[trigger] self.functions().contains_key(r@[i].0@),
            forall|i: int| 0 <= i < r@.len() ==> self.functions()[#[trigger] r@[i].0@] == r@[i].1,
            forall|k: Seq<char>| #[trigger] self.functions().contains_key(k) ==> exists|i: int|
                0 <= i < r@.len() && r@[i].0@ == k,
            self.keyed_by_name() ==> forall|i: int| 0 <= i < r@.len() ==> (#[trigger] r@[i]).1.name@ == r@[i].0@,
    {
        let r = self.functions.entries();
        proof {
            if self.keyed_by_name() {
                assert forall|i: int| 0 <= i < r@.len() implies (#[trigger] r@[i]).1.name@ == r@[i].0@ by {
                    assert(self.functions().contains_key(r@[i].0@));
                }
            }
        }
        r
    }

    /// Define a record type, replacing an earlier one of the same name.
    #[verifier::spinoff_prover]
    pub fn define_record(&mut self, info: RecordInfo)
        requires
            old(self).wf(),
            info.wf(),
        ensures
            final(self).wf(),
            final(self).records() == old(self).records().insert(info.name@, info),
            final(self).agents() == old(self).agents(),
            final(self).supervisors() == old(self).supervisors(),
            final(self).protocols() == old(self).protocols(),
            final(self).effect_handlers() == old(self).effect_handlers(),
            final(self).functions() == old(self).functions(),
            final(self).enums() == old(self).enums(),
            final(self).consts() == old(self).consts(),
            final(self).builtins() == old(self).builtins(),
            final(self).builtin_infos() == old(self).builtin_infos(),
            old(self).keyed_by_name() ==> final(self).keyed_by_name(),
            final(self).records().dom().finite(),
            final(self).records().dom().len() == old(self).records().dom().len() + (if old(self).records().contains_key(info.name@) {
                0int
            } else {
                1int
            }),
    {
        proof {
            self.records.lemma_finite();
        }
        let ghost nm = info.name@;
        let key = info.name.clone();
        self.records.insert(key, info);
        proof {
            self.records.lemma_finite();
            if old(self).keyed_by_name() {
                assert forall|q: Seq<char>| #[trigger] self.records().contains_key(q) implies self.records()[q].name@ == q by {
                    if q != nm {
                        assert(old(self).records().contains_key(q));
                    }
                }
            }
        }
    }

    /// Look up a record type by name.
    pub fn get_record(&self, name: &str) -> (r: Option<&RecordInfo>)
        requires
            self.wf(),
        ensures
            r is Some <==> self.records().contains_key(name@),
            r matches Some(i) ==> *i == self.records()[name@] && i.wf(),
    {
        self.records.get(name)
    }

    /// Check if a record type is defined.
    pub fn has_record(&self, name: &str) -> (r: bool)
        requires
            self.wf(),
        ensures
            r == self.records().contains_key(name@),
    {
        self.records.contains(name)
    }

    /// All declared records: each name once, with its declaration.
    pub fn iter_records(&self) -> (r: &[(String, RecordInfo)])
        requires
            self.wf(),
        ensures
            distinct_keys(r@),
            r@.len() == self.records().dom().len(),
            forall|i: int| 0 <= i < r@.len() ==> #[trigger] self.records().contains_key(r@[i].0@),
            forall|i: int| 0 <= i < r@.len() ==> self.records()[#[trigger] r@[i].0@] == r@[i].1,
            forall|k: Seq<char>| #[trigger] self.records().contains_key(k) ==> exists|i: int|
                0 <= i < r@.len() && r@[i].0@ == k,
            self.keyed_by_name() ==> forall|i: int| 0 <= i < r@.len() ==> (#[trigger] r@[i]).1.name@ == r@[i].0@,
    {
        let r = self.records.entries();
        proof {
            if self.keyed_by_name() {
                assert forall|i: int| 0 <= i < r@.len() implies (#[trigger] r@[i]).1.name@ == r@[i].0@ by {
                    assert(self.records().contains_key(r@[i].0@));
                }
            }
        }
        r
    }

    /// Define an enum type, replacing an earlier one of the same name.
    #[verifier::spinoff_prover]
    pub fn define_enum(&mut self, info: EnumInfo)
        requires
            old(self).wf(),
        ensures
            final(self).wf(),
            final(self).enums() == old(self).enums().insert(info.name@, info),
            final(self).agents() == old(self).agents(),
            final(self).supervisors() == old(self).supervisors(),
            final(self).protocols() == old(self).protocols(),
            final(self).effect_handlers() == old(self).effect_handlers(),
            final(self).functions() == old(self).functions(),
            final(self).records() == old(self).records(),
            final(self).consts() == old(self).consts(),
            final(self).builtins() == old(self).builtins(),
            final(self).builtin_infos() == old(self).builtin_infos(),
            old(self).keyed_by_name() ==> final(self).keyed_by_name(),
            final(self).enums().dom().finite(),
            final(self).enums().dom().len() == old(self).enums().dom().len() + (if old(self).enums().contains_key(info.name@) {
                0int
            } else {
                1int
            }),
    {
        proof {
            self.enums.lemma_finite();
        }
        let ghost nm = info.name@;
        let key = info.name.clone();
        self.enums.insert(key, info);
        proof {
            self.enums.lemma_finite();
            if old(self).keyed_by_name() {
                assert forall|q: Seq<char>| #[trigger] self.enums().contains_key(q) implies self.enums()[q].name@ == q by {
                    if q != nm {
                        assert(old(self).enums().contains_key(q));
                    }
                }
            }
        }
    }

    /// Look up an enum type by name.
    pub fn get_enum(&self, name: &str) -> (r: Option<&EnumInfo>)
        requires
            self.wf(),
        ensures
            r is Some <==> self.enums().contains_key(name@),
            r matches Some(i) ==> *i == self.enums()[name@],
    {
        self.enums.get(name)
    }

    /// Check if an enum type is defined.
    pub fn has_enum(&self, name: &str) -> (r: bool)
        requires
            self.wf(),
        ensures
            r == self.enums().contains_key(name@),
    {
        self.enums.contains(name)
    }

    /// All declared enums: each name once, with its declaration.
    pub fn iter_enums(&self) -> (r: &[(String, EnumInfo)])
        requires
            self.wf(),
        ensures
            distinct_keys(r@),
            r@.len() == self.enums().dom().len(),
            forall|i: int| 0 <= i < r@.len() ==> #[trigger] self.enums().contains_key(r@[i].0@),
            forall|i: int| 0 <= i < r@.len() ==> self.enums()[#[trigger] r@[i].0@] == r@[i].1,
            forall|k: Seq<char>| #[trigger] self.enums().contains_key(k) ==> exists|i: int|
                0 <= i < r@.len() && r@[i].0@ == k,
            self.keyed_by_name() ==> forall|i: int| 0 <= i < r@.len() ==> (#[trigger] r@[i]).1.name@ == r@[i].0@,
    {
        let r = self.enums.entries();
        proof {
            if self.keyed_by_name() {
                assert forall|i: int| 0 <= i < r@.len() implies (#[trigger] r@[i]).1.name@ == r@[i].0@ by {
                    assert(self.enums().contains_key(r@[i].0@));
                }
            }
        }
        r
    }

    /// Define a constant, replacing an earlier one of the same name.
    #[verifier::spinoff_prover]
    pub fn define_const(&mut self, info: ConstInfo)
        requires
            old(self).wf(),
        ensures
            final(self).wf(),
            final(self).consts() == old(self).consts().insert(info.name@, info),
            final(self).agents() == old(self).agents(),
            final(self).supervisors() == old(self).supervisors(),
            final(self).protocols() == old(self).protocols(),
            final(self).effect_handlers() == old(self).effect_handlers(),
            final(self).functions() == old(self).functions(),
            final(self).records() == old(self).records(),
            final(self).enums() == old(self).enums(),
            final(self).builtins() == old(self).builtins(),
            final(self).builtin_infos() == old(self).builtin_infos(),
            old(self).keyed_by_name() ==> final(self).keyed_by_name(),
            final(self).consts().dom().finite(),
            final(self).consts().dom().len() == old(self).consts().dom().len() + (if old(self).consts().contains_key(info.name@) {
                0int
            } else {
                1int
            }),
    {
        proof {
            self.consts.lemma_finite();
        }
        let ghost nm = info.name@;
        let key = info.name.clone();
        self.consts.insert(key, info);
        proof {
            self.consts.lemma_finite();
            if old(self).keyed_by_name() {
                assert forall|q: Seq<char>| #[trigger] self.consts().contains_key(q) implies self.consts()[q].name@ == q by {
                    if q != nm {
                        assert(old(self).consts().contains_key(q));
                    }
                }
            }
        }
    }

    /// Look up a constant by name.
    pub fn get_const(&self, name: &str) -> (r: Option<&ConstInfo>)
        requires
            self.wf(),
        ensures
            r is Some <==> self.consts().contains_key(name@),
            r matches Some(i) ==> *i == self.consts()[name@],
    {
        self.consts.get(name)
    }

    /// Check if a constant is defined.
    pub fn has_const(&self, name: &str) -> (r: bool)
        requires
            self.wf(),
        ensures
            r == self.consts().contains_key(name@),
    {
        self.consts.contains(name)
    }

    /// All declared consts: each name once, with its declaration.
    pub fn iter_consts(&self) -> (r: &[(String, ConstInfo)])
        requires
            self.wf(),
        ensures
            distinct_keys(r@),
            r@.len() == self.consts().dom().len(),
            forall|i: int| 0 <= i < r@.len() ==> #[trigger] self.consts().contains_key(r@[i].0@),
            forall|i: int| 0 <= i < r@.len() ==> self.consts()[#[trigger] r@[i].0@] == r@[i].1,
            forall|k: Seq<char>| #[trigger] self.consts().contains_key(k) ==> exists|i: int|
                0 <= i < r@.len() && r@[i].0@ == k,
            self.keyed_by_name() ==> forall|i: int| 0 <= i < r@.len() ==> (#[trigger] r@[i]).1.name@ == r@[i].0@,
    {
        let r = self.consts.entries();
        proof {
            if self.keyed_by_name() {
                assert forall|i: int| 0 <= i < r@.len() implies (#[trigger] r@[i]).1.name@ == r@[i].0@ by {
                    assert(self.consts().contains_key(r@[i].0@));
                }
            }
        }
        r
    }

    /// Look up a built-in function by name.
    pub fn get_builtin(&self, name: &str) -> (r: Option<&BuiltinInfo>)
        requires
            self.wf(),
        ensures
            r is Some <==> self.builtins().contains_key(name@),
            r matches Some(b) ==> *b == self.builtin_infos()[name@] && b@ == self.builtins()[name@] && b.name@ == name@,
    {
        self.builtins.get(name)
    }

    /// Check if a built-in function is defined.
    pub fn has_builtin(&self, name: &str) -> (r: bool)
        requires
            self.wf(),
        ensures
            r == self.builtins().contains_key(name@),
    {
        self.builtins.contains(name)
    }

    /// Get a mutable reference to an agent.
    pub fn get_agent_mut(&mut self, name: &str) -> (r: Option<&mut AgentInfo>)
        requires
            old(self).wf(),
        ensures
            r is Some <==> old(self).agents().contains_key(name@),
            r matches Some(a) ==> *a == old(self).agents()[name@] && a.wf() && final(self).agents() == old(
                self,
            ).agents().insert(name@, *final(a)) && (final(a).wf() ==> final(self).wf()),
            r is None ==> *final(self) == *old(self),
            final(self).supervisors() == old(self).supervisors(),
            final(self).protocols() == old(self).protocols(),
            final(self).effect_handlers() == old(self).effect_handlers(),
            final(self).functions() == old(self).functions(),
            final(self).records() == old(self).records(),
            final(self).enums() == old(self).enums(),
            final(self).consts() == old(self).consts(),
            final(self).builtins() == old(self).builtins(),
            final(self).builtin_infos() == old(self).builtin_infos(),
    {
        self.agents.get_mut(name)
    }

    /// Check if a builtin is a test-only assertion (only valid in `_test.sg` files).
    pub fn is_test_assertion(&self, name: &str) -> (r: bool)
        ensures
            r == test_assertion_names().contains(name@),
    {
        is_test_assertion_name(name)
    }
}

/// The names of the assertion built-ins, valid only in test files.
pub open spec fn test_assertion_names() -> Set<Seq<char>> {
    set!["assert"@, "assert_eq"@, "assert_neq"@, "assert_gt"@, "assert_lt"@, "assert_gte"@, "assert_lte"@, "assert_true"@, "assert_false"@, "assert_contains"@, "assert_not_contains"@, "assert_empty"@, "assert_not_empty"@, "assert_starts_with"@, "assert_ends_with"@, "assert_len"@, "assert_empty_list"@, "assert_not_empty_list"@, "assert_fails"@]
}

/// Whether `name` is one of the assertion built-ins.
pub fn is_test_assertion_name(name: &str) -> (r: bool)
    ensures
        r == test_assertion_names().contains(name@),
{
    str_eq(name, "assert") || str_eq(name, "assert_eq") || str_eq(name, "assert_neq") || str_eq(name, "assert_gt") || str_eq(name, "assert_lt") || str_eq(name, "assert_gte") || str_eq(name, "assert_lte") || str_eq(name, "assert_true") || str_eq(name, "assert_false") || str_eq(name, "assert_contains") || str_eq(name, "assert_not_contains") || str_eq(name, "assert_empty") || str_eq(name, "assert_not_empty") || str_eq(name, "assert_starts_with") || str_eq(name, "assert_ends_with") || str_eq(name, "assert_len") || str_eq(name, "assert_empty_list") || str_eq(name, "assert_not_empty_list") || str_eq(name, "assert_fails")
}

} // verus!
