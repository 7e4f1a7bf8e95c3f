//! Resolved types of the Sage type system.
//!
//! [`Type`] is the checker's internal representation of types, distinct from
//! the syntactic `TypeExpr` of the AST. Its model is [`TypeV`].

use vstd::prelude::*;
use crate::names::NameMap;
use crate::names::NameSet;

verus! {

/// The mathematical model of a [`Type`]: names as character sequences,
/// argument lists as sequences.
pub ghost enum TypeV {
    Int,
    Float,
    Bool,
    Str,
    Unit,
    List(Box<TypeV>),
    Opt(Box<TypeV>),
    Inferred(Box<TypeV>),
    Agent(Seq<char>),
    Named(Seq<char>),
    Generic(Seq<char>, Seq<TypeV>),
    TypeParam(Seq<char>),
    Func(Seq<TypeV>, Box<TypeV>),
    Dict(Box<TypeV>, Box<TypeV>),
    Tuple(Seq<TypeV>),
    Res(Box<TypeV>, Box<TypeV>),
    Never,
    Error,
}

/// A resolved type in the Sage type system.
#[derive(Debug, PartialEq, Eq)]
pub enum Type {
    /// 64-bit signed integer.
    Int,
    /// 64-bit floating point.
    Float,
    /// Boolean.
    Bool,
    /// UTF-8 string.
    String,
    /// Unit type (void equivalent).
    Unit,
    /// Homogeneous list.
    List(Box<Type>),
    /// Optional value.
    Option(Box<Type>),
    /// Result of an LLM inference call.
    Inferred(Box<Type>),
    /// Handle to a running agent.
    Agent(String),
    /// User-defined type (record or enum) by name.
    Named(String),
    /// Generic type with type arguments: `Pair<Int, String>`.
    Generic(String, Vec<Type>),
    /// Type parameter reference (e.g., `T` in `fn identity<T>(x: T) -> T`).
    TypeParam(String),
    /// Function type: parameter types and return type.
    Fn(Vec<Type>, Box<Type>),
    /// Map type: `Map<K, V>`.
    Dict(Box<Type>, Box<Type>),
    /// Tuple type: `(A, B, C)`.
    Tuple(Vec<Type>),
    /// Result type: `Result<T, E>`.
    Result(Box<Type>, Box<Type>),
    /// Never type: expression that never returns; compatible with any type.
    Never,
    /// An error type used when type checking fails; compatible with any type.
    Error,
}

/// The models of a sequence of types.
pub open spec fn view_types(s: Seq<Type>) -> Seq<TypeV>
    decreases s,
{
    if s.len() == 0 {
        Seq::empty()
    } else {
        view_types(s.drop_last()).push(type_view(s.last()))
    }
}

/// The model of a type.
pub open spec fn type_view(t: Type) -> TypeV
    decreases t,
{
    match t {
        Type::Int => TypeV::Int,
        Type::Float => TypeV::Float,
        Type::Bool => TypeV::Bool,
        Type::String => TypeV::Str,
        Type::Unit => TypeV::Unit,
        Type::List(e) => TypeV::List(Box::new(type_view(*e))),
        Type::Option(e) => TypeV::Opt(Box::new(type_view(*e))),
        Type::Inferred(e) => TypeV::Inferred(Box::new(type_view(*e))),
        Type::Agent(n) => TypeV::Agent(n@),
        Type::Named(n) => TypeV::Named(n@),
        Type::Generic(n, args) => TypeV::Generic(n@, view_types(args@)),
        Type::TypeParam(n) => TypeV::TypeParam(n@),
        Type::Fn(ps, r) => TypeV::Func(view_types(ps@), Box::new(type_view(*r))),
        Type::Dict(k, v) => TypeV::Dict(Box::new(type_view(*k)), Box::new(type_view(*v))),
        Type::Tuple(es) => TypeV::Tuple(view_types(es@)),
        Type::Result(o, e) => TypeV::Res(Box::new(type_view(*o)), Box::new(type_view(*e))),
        Type::Never => TypeV::Never,
        Type::Error => TypeV::Error,
    }
}

impl View for Type {
    type V = TypeV;

    open spec fn view(&self) -> TypeV {
        type_view(*self)
    }
}

/// Structural size of a type model (a termination measure).
pub open spec fn size(t: TypeV) -> nat
    decreases t,
{
    match t {
        TypeV::List(e) => 1 + size(*e),
        TypeV::Opt(e) => 1 + size(*e),
        TypeV::Inferred(e) => 1 + size(*e),
        TypeV::Generic(_, s) => 1 + sizes(s),
        TypeV::Func(s, r) => 1 + sizes(s) + size(*r),
        TypeV::Dict(k, v) => 1 + size(*k) + size(*v),
        TypeV::Tuple(s) => 1 + sizes(s),
        TypeV::Res(o, e) => 1 + size(*o) + size(*e),
        _ => 1,
    }
}

/// Total size of a sequence of type models.
pub open spec fn sizes(s: Seq<TypeV>) -> nat
    decreases s,
{
    if s.len() == 0 {
        0
    } else {
        sizes(s.drop_last()) + size(s.last())
    }
}

/// The model of a sequence of types has its length and its elements' models.
pub proof fn lemma_view_types(s: Seq<Type>)
    ensures
        view_types(s).len() == s.len(),
        forall|k: int| 0 <= k < s.len() ==> #[trigger] view_types(s)[k] == s[k]@,
    decreases s.len(),
{
    if s.len() > 0 {
        lemma_view_types(s.drop_last());
    }
}

/// Every element of a sequence is smaller than the whole sequence.
pub proof fn lemma_sizes_elem(s: Seq<TypeV>, k: int)
    requires
        0 <= k < s.len(),
    ensures
        size(s[k]) <= sizes(s),
    decreases s.len(),
{
    if k < s.len() - 1 {
        lemma_sizes_elem(s.drop_last(), k);
    }
}

/// Views of two sequences are equal when their elements' views are.
pub proof fn lemma_view_types_ext(a: Seq<Type>, b: Seq<Type>)
    requires
        a.len() == b.len(),
        forall|k: int| 0 <= k < a.len() ==> #[trigger] a[k]@ == b[k]@,
    ensures
        view_types(a) == view_types(b),
{
    lemma_view_types(a);
    lemma_view_types(b);
    assert(view_types(a) =~= view_types(b));
}

/// The view of a sequence with one more element.
pub proof fn lemma_view_types_push(s: Seq<Type>, t: Type)
    ensures
        view_types(s.push(t)) == view_types(s).push(t@),
{
    assert(s.push(t).drop_last() =~= s);
}


/// Copies a sequence of types, element by element.
fn copy_types(v: &Vec<Type>) -> (r: Vec<Type>)
    ensures
        view_types(r@) == view_types(v@),
    decreases sizes(view_types(v@)), 2nat,
{
    let mut r: Vec<Type> = Vec::new();
    let n = v.len();
    proof {
        lemma_view_types(v@);
    }
    for i in 0..n
        invariant
            n == v@.len(),
            view_types(v@).len() == n,
            forall|k: int| 0 <= k < n ==> #[trigger] view_types(v@)[k] == v@[k]@,
            r@.len() == i,
            forall|k: int| 0 <= k < i ==> #[trigger] r@[k]@ == v@[k]@,
    {
        proof {
            lemma_sizes_elem(view_types(v@), i as int);
        }
        let c = v[i].deep_copy();
        r.push(c);
    }
    proof {
        lemma_view_types_ext(r@, v@);
    }
    r
}

/// Decides equality of the models of two sequences of types.
fn types_eq(a: &Vec<Type>, b: &Vec<Type>) -> (r: bool)
    ensures
        r == (view_types(a@) == view_types(b@)),
    decreases sizes(view_types(a@)), 2nat,
{
    proof {
        lemma_view_types(a@);
        lemma_view_types(b@);
    }
    if a.len() != b.len() {
        return false;
    }
    let n = a.len();
    for i in 0..n
        invariant
            n == a@.len(),
            n == b@.len(),
            view_types(a@).len() == n,
            view_types(b@).len() == n,
            forall|k: int| 0 <= k < n ==> #[trigger] view_types(a@)[k] == a@[k]@,
            forall|k: int| 0 <= k < n ==> #[trigger] view_types(b@)[k] == b@[k]@,
            forall|k: int| 0 <= k < i ==> #[trigger] a@[k]@ == b@[k]@,
    {
        proof {
            lemma_sizes_elem(view_types(a@), i as int);
        }
        if !a[i].same_as(&b[i]) {
            assert(view_types(a@)[i as int] != view_types(b@)[i as int]);
            return false;
        }
    }
    proof {
        lemma_view_types_ext(a@, b@);
    }
    true
}

impl Type {
    /// Copies this type; the copy has the same model.
    pub fn deep_copy(&self) -> (r: Type)
        ensures
            r@ == self@,
        decreases size(self@), 1nat,
    {
        match self {
            Type::Int => Type::Int,
            Type::Float => Type::Float,
            Type::Bool => Type::Bool,
            Type::String => Type::String,
            Type::Unit => Type::Unit,
            Type::List(e) => Type::List(Box::new(e.deep_copy())),
            Type::Option(e) => Type::Option(Box::new(e.deep_copy())),
            Type::Inferred(e) => Type::Inferred(Box::new(e.deep_copy())),
            Type::Agent(n) => Type::Agent(n.clone()),
            Type::Named(n) => Type::Named(n.clone()),
            Type::Generic(n, args) => Type::Generic(n.clone(), copy_types(args)),
            Type::TypeParam(n) => Type::TypeParam(n.clone()),
            Type::Fn(ps, r) => {
                let ps2 = copy_types(ps);
                Type::Fn(ps2, Box::new(r.deep_copy()))
            },
            Type::Dict(k, v) => Type::Dict(Box::new(k.deep_copy()), Box::new(v.deep_copy())),
            Type::Tuple(es) => Type::Tuple(copy_types(es)),
            Type::Result(o, e) => Type::Result(Box::new(o.deep_copy()), Box::new(e.deep_copy())),
            Type::Never => Type::Never,
            Type::Error => Type::Error,
        }
    }

    /// Decides whether two types are structurally equal.
    pub fn same_as(&self, other: &Type) -> (r: bool)
        ensures
            r == (self@ == other@),
        decreases size(self@), 1nat,
    {
        match (self, other) {
            (Type::Int, Type::Int) => true,
            (Type::Float, Type::Float) => true,
            (Type::Bool, Type::Bool) => true,
            (Type::String, Type::String) => true,
            (Type::Unit, Type::Unit) => true,
            (Type::List(a), Type::List(b)) => a.same_as(b),
            (Type::Option(a), Type::Option(b)) => a.same_as(b),
            (Type::Inferred(a), Type::Inferred(b)) => a.same_as(b),
            (Type::Agent(a), Type::Agent(b)) => *a == *b,
            (Type::Named(a), Type::Named(b)) => *a == *b,
            (Type::Generic(n1, a1), Type::Generic(n2, a2)) => *n1 == *n2 && types_eq(a1, a2),
            (Type::TypeParam(a), Type::TypeParam(b)) => *a == *b,
            (Type::Fn(p1, r1), Type::Fn(p2, r2)) => types_eq(p1, p2) && r1.same_as(r2),
            (Type::Dict(k1, v1), Type::Dict(k2, v2)) => k1.same_as(k2) && v1.same_as(v2),
            (Type::Tuple(a), Type::Tuple(b)) => types_eq(a, b),
            (Type::Result(o1, e1), Type::Result(o2, e2)) => o1.same_as(o2) && e1.same_as(e2),
            (Type::Never, Type::Never) => true,
            (Type::Error, Type::Error) => true,
            _ => false,
        }
    }
}

impl Clone for Type {
    fn clone(&self) -> (r: Self)
        ensures
            r@ == self@,
    {
        self.deep_copy()
    }
}


/// Strips every `Inferred` wrapper from the outside of a type.
pub open spec fn unwrap_inferred_v(t: TypeV) -> TypeV
    decreases t,
{
    match t {
        TypeV::Inferred(inner) => unwrap_inferred_v(*inner),
        other => other,
    }
}

/// When two types are compatible for assignment or comparison.
///
/// Equal types, `Error` and `Never` are compatible with anything; `Inferred<T>`
/// is compatible with what `T` is compatible with; a type parameter is
/// compatible with any type; otherwise the type constructors must agree and
/// their components must be pairwise compatible. A generic type without
/// arguments is compatible with the named type of the same name.
pub open spec fn compatible(a: TypeV, b: TypeV) -> bool
    decreases size(a) + size(b), 1nat,
{
    if a == b {
        true
    } else if a is Error || b is Error {
        true
    } else if a is Never || b is Never {
        true
    } else {
        match (a, b) {
            (TypeV::Inferred(inner), o) => compatible(*inner, o),
            (o, TypeV::Inferred(inner)) => compatible(*inner, o),
            (TypeV::TypeParam(_), _) => true,
            (_, TypeV::TypeParam(_)) => true,
            (TypeV::Generic(n1, a1), TypeV::Generic(n2, a2)) => n1 == n2 && a1.len() == a2.len()
                && compatible_all(a1, a2),
            (TypeV::Generic(n1, args), TypeV::Named(n2)) => n1 == n2 && args.len() == 0,
            (TypeV::Named(n2), TypeV::Generic(n1, args)) => n1 == n2 && args.len() == 0,
            (TypeV::Func(p1, r1), TypeV::Func(p2, r2)) => p1.len() == p2.len() && compatible_all(
                p1,
                p2,
            ) && compatible(*r1, *r2),
            (TypeV::Dict(k1, v1), TypeV::Dict(k2, v2)) => compatible(*k1, *k2) && compatible(
                *v1,
                *v2,
            ),
            (TypeV::Tuple(e1), TypeV::Tuple(e2)) => e1.len() == e2.len() && compatible_all(e1, e2),
            (TypeV::Res(o1, e1), TypeV::Res(o2, e2)) => compatible(*o1, *o2) && compatible(
                *e1,
                *e2,
            ),
            (TypeV::List(e1), TypeV::List(e2)) => compatible(*e1, *e2),
            (TypeV::Opt(i1), TypeV::Opt(i2)) => compatible(*i1, *i2),
            _ => false,
        }
    }
}

/// Pairwise compatibility of two sequences of the same length.
pub open spec fn compatible_all(s1: Seq<TypeV>, s2: Seq<TypeV>) -> bool
    decreases sizes(s1) + sizes(s2), 2nat,
{
    if s1.len() == 0 || s2.len() == 0 {
        true
    } else {
        compatible_all(s1.drop_last(), s2.drop_last()) && compatible(s1.last(), s2.last())
    }
}

/// Whether a type mentions a type parameter.
pub open spec fn has_params(t: TypeV) -> bool
    decreases t,
{
    match t {
        TypeV::TypeParam(_) => true,
        TypeV::List(e) => has_params(*e),
        TypeV::Opt(e) => has_params(*e),
        TypeV::Inferred(e) => has_params(*e),
        TypeV::Dict(k, v) => has_params(*k) || has_params(*v),
        TypeV::Res(k, v) => has_params(*k) || has_params(*v),
        TypeV::Tuple(es) => any_has_params(es),
        TypeV::Func(ps, r) => any_has_params(ps) || has_params(*r),
        TypeV::Generic(_, args) => any_has_params(args),
        _ => false,
    }
}

/// Whether some type of a sequence mentions a type parameter.
pub open spec fn any_has_params(s: Seq<TypeV>) -> bool
    decreases s,
{
    if s.len() == 0 {
        false
    } else {
        any_has_params(s.drop_last()) || has_params(s.last())
    }
}

/// The names of the type parameters a type mentions.
pub open spec fn params_of(t: TypeV) -> Set<Seq<char>>
    decreases t,
{
    match t {
        TypeV::TypeParam(n) => Set::empty().insert(n),
        TypeV::List(e) => params_of(*e),
        TypeV::Opt(e) => params_of(*e),
        TypeV::Inferred(e) => params_of(*e),
        TypeV::Dict(k, v) => params_of(*k).union(params_of(*v)),
        TypeV::Res(k, v) => params_of(*k).union(params_of(*v)),
        TypeV::Tuple(es) => params_of_all(es),
        TypeV::Func(ps, r) => params_of_all(ps).union(params_of(*r)),
        TypeV::Generic(_, args) => params_of_all(args),
        _ => Set::empty(),
    }
}

/// The names of the type parameters a sequence of types mentions.
pub open spec fn params_of_all(s: Seq<TypeV>) -> Set<Seq<char>>
    decreases s,
{
    if s.len() == 0 {
        Set::empty()
    } else {
        params_of_all(s.drop_last()).union(params_of(s.last()))
    }
}

/// A type with each bound type parameter replaced by its binding.
pub open spec fn subst(t: TypeV, b: Map<Seq<char>, TypeV>) -> TypeV
    decreases t,
{
    match t {
        TypeV::TypeParam(n) => if b.contains_key(n) {
            b[n]
        } else {
            t
        },
        TypeV::List(e) => TypeV::List(Box::new(subst(*e, b))),
        TypeV::Opt(e) => TypeV::Opt(Box::new(subst(*e, b))),
        TypeV::Inferred(e) => TypeV::Inferred(Box::new(subst(*e, b))),
        TypeV::Dict(k, v) => TypeV::Dict(Box::new(subst(*k, b)), Box::new(subst(*v, b))),
        TypeV::Tuple(es) => TypeV::Tuple(subst_all(es, b)),
        TypeV::Res(o, e) => TypeV::Res(Box::new(subst(*o, b)), Box::new(subst(*e, b))),
        TypeV::Func(ps, r) => TypeV::Func(subst_all(ps, b), Box::new(subst(*r, b))),
        TypeV::Generic(n, args) => TypeV::Generic(n, subst_all(args, b)),
        _ => t,
    }
}

/// Substitution applied to each type of a sequence.
pub open spec fn subst_all(s: Seq<TypeV>, b: Map<Seq<char>, TypeV>) -> Seq<TypeV>
    decreases s,
{
    if s.len() == 0 {
        Seq::empty()
    } else {
        subst_all(s.drop_last(), b).push(subst(s.last(), b))
    }
}

/// The written form of a type, as the type checker's messages show it.
pub open spec fn display(t: TypeV) -> Seq<char>
    decreases t,
{
    match t {
        TypeV::Int => "Int"@,
        TypeV::Float => "Float"@,
        TypeV::Bool => "Bool"@,
        TypeV::Str => "String"@,
        TypeV::Unit => "Unit"@,
        TypeV::List(e) => "List<"@ + display(*e) + ">"@,
        TypeV::Opt(e) => "Option<"@ + display(*e) + ">"@,
        TypeV::Inferred(e) => "Inferred<"@ + display(*e) + ">"@,
        TypeV::Agent(n) => "Agent<"@ + n + ">"@,
        TypeV::Named(n) => n,
        TypeV::Generic(n, args) => n + "<"@ + display_list(args) + ">"@,
        TypeV::TypeParam(n) => n,
        TypeV::Func(ps, r) => "Fn("@ + display_list(ps) + ") -> "@ + display(*r),
        TypeV::Dict(k, v) => "Map<"@ + display(*k) + ", "@ + display(*v) + ">"@,
        TypeV::Tuple(es) => "("@ + display_list(es) + ")"@,
        TypeV::Res(o, e) => "Result<"@ + display(*o) + ", "@ + display(*e) + ">"@,
        TypeV::Never => "Never"@,
        TypeV::Error => "<error>"@,
    }
}

/// The written forms of a sequence of types, separated by `, `.
pub open spec fn display_list(s: Seq<TypeV>) -> Seq<char>
    decreases s,
{
    if s.len() == 0 {
        Seq::empty()
    } else if s.len() == 1 {
        display(s[0])
    } else {
        display_list(s.drop_last()) + ", "@ + display(s.last())
    }
}

/// The type models a table of bindings holds.
pub open spec fn bindings_view(b: Map<Seq<char>, Type>) -> Map<Seq<char>, TypeV> {
    b.map_values(|t: Type| t@)
}

/// Pairwise compatibility of sequences of equal length, element by element.
pub proof fn lemma_compatible_all(s1: Seq<TypeV>, s2: Seq<TypeV>)
    requires
        s1.len() == s2.len(),
    ensures
        compatible_all(s1, s2) <==> forall|k: int|
            0 <= k < s1.len() ==> #[trigger] compatible(s1[k], s2[k]),
    decreases s1.len(),
{
    if s1.len() > 0 {
        lemma_compatible_all(s1.drop_last(), s2.drop_last());
        if compatible_all(s1, s2) {
            assert forall|k: int| 0 <= k < s1.len() implies #[trigger] compatible(s1[k], s2[k]) by {
                if k < s1.len() - 1 {
                    assert(s1.drop_last()[k] == s1[k]);
                    assert(s2.drop_last()[k] == s2[k]);
                }
            }
        }
        if forall|k: int| 0 <= k < s1.len() ==> #[trigger] compatible(s1[k], s2[k]) {
            assert forall|k: int| 0 <= k < s1.drop_last().len() implies #[trigger] compatible(
                s1.drop_last()[k],
                s2.drop_last()[k],
            ) by {
                assert(compatible(s1[k], s2[k]));
            }
            assert(compatible(s1[s1.len() - 1], s2[s2.len() - 1]));
        }
    }
}

/// Decides pairwise compatibility of two lists of the same length.
fn all_compatible(a: &Vec<Type>, b: &Vec<Type>) -> (r: bool)
    requires
        a@.len() == b@.len(),
    ensures
        r == compatible_all(view_types(a@), view_types(b@)),
    decreases sizes(view_types(a@)) + sizes(view_types(b@)), 2nat,
{
    proof {
        lemma_view_types(a@);
        lemma_view_types(b@);
        lemma_compatible_all(view_types(a@), view_types(b@));
    }
    let n = a.len();
    for i in 0..n
        invariant
            n == a@.len(),
            n == b@.len(),
            view_types(a@).len() == n,
            view_types(b@).len() == n,
            forall|k: int| 0 <= k < n ==> #[trigger] view_types(a@)[k] == a@[k]@,
            forall|k: int| 0 <= k < n ==> #[trigger] view_types(b@)[k] == b@[k]@,
            forall|k: int| 0 <= k < i ==> #[trigger] compatible(a@[k]@, b@[k]@),
            compatible_all(view_types(a@), view_types(b@)) <==> forall|k: int|
                0 <= k < n ==> #[trigger] compatible(view_types(a@)[k], view_types(b@)[k]),
    {
        proof {
            lemma_sizes_elem(view_types(a@), i as int);
            lemma_sizes_elem(view_types(b@), i as int);
        }
        if !a[i].is_compatible_with(&b[i]) {
            assert(!compatible(view_types(a@)[i as int], view_types(b@)[i as int]));
            return false;
        }
    }
    assert forall|k: int| 0 <= k < n implies #[trigger] compatible(
        view_types(a@)[k],
        view_types(b@)[k],
    ) by {
        assert(compatible(a@[k]@, b@[k]@));
    }
    true
}

/// Substitution applied to each type of a list.
fn subst_types(v: &Vec<Type>, bindings: &NameMap<Type>) -> (r: Vec<Type>)
    requires
        bindings.wf(),
    ensures
        view_types(r@) == subst_all(view_types(v@), bindings_view(bindings@)),
    decreases sizes(view_types(v@)), 2nat,
{
    let ghost b = bindings_view(bindings@);
    let ghost vs = view_types(v@);
    proof {
        lemma_view_types(v@);
    }
    let mut r: Vec<Type> = Vec::new();
    let n = v.len();
    for i in 0..n
        invariant
            n == v@.len(),
            vs == view_types(v@),
            b == bindings_view(bindings@),
            bindings.wf(),
            vs.len() == n,
            forall|k: int| 0 <= k < n ==> #[trigger] vs[k] == v@[k]@,
            view_types(r@) == subst_all(vs.take(i as int), b),
    {
        proof {
            lemma_sizes_elem(vs, i as int);
        }
        let t = v[i].substitute(bindings);
        let ghost before = r@;
        r.push(t);
        proof {
            lemma_view_types_push(before, t);
            assert(vs.take(i + 1).drop_last() =~= vs.take(i as int));
        }
    }
    assert(vs.take(n as int) =~= vs);
    r
}

/// Whether some type of a list mentions a type parameter.
fn any_type_params(v: &Vec<Type>) -> (r: bool)
    ensures
        r == any_has_params(view_types(v@)),
    decreases sizes(view_types(v@)), 2nat,
{
    let ghost vs = view_types(v@);
    proof {
        lemma_view_types(v@);
    }
    let mut found = false;
    let n = v.len();
    for i in 0..n
        invariant
            n == v@.len(),
            vs == view_types(v@),
            vs.len() == n,
            forall|k: int| 0 <= k < n ==> #[trigger] vs[k] == v@[k]@,
            found == any_has_params(vs.take(i as int)),
    {
        proof {
            lemma_sizes_elem(vs, i as int);
            assert(vs.take(i + 1).drop_last() =~= vs.take(i as int));
        }
        let h = v[i].has_type_params();
        found = found || h;
    }
    assert(vs.take(n as int) =~= vs);
    found
}

/// Adds the type parameters of each type of a list to `params`.
fn collect_all_type_params(v: &Vec<Type>, params: &mut NameSet)
    requires
        old(params).wf(),
    ensures
        final(params).wf(),
        final(params)@ == old(params)@.union(params_of_all(view_types(v@))),
    decreases sizes(view_types(v@)), 2nat,
{
    let ghost vs = view_types(v@);
    let ghost start = params@;
    proof {
        lemma_view_types(v@);
    }
    let n = v.len();
    for i in 0..n
        invariant
            n == v@.len(),
            vs == view_types(v@),
            vs.len() == n,
            forall|k: int| 0 <= k < n ==> #[trigger] vs[k] == v@[k]@,
            params.wf(),
            params@ == start.union(params_of_all(vs.take(i as int))),
    {
        proof {
            lemma_sizes_elem(vs, i as int);
            assert(vs.take(i + 1).drop_last() =~= vs.take(i as int));
        }
        v[i].collect_type_params(params);
        assert(params@ =~= start.union(params_of_all(vs.take(i + 1))));
    }
    assert(vs.take(n as int) =~= vs);
}

/// The written forms of the types of a list, separated by `, `.
fn display_types(v: &Vec<Type>) -> (r: String)
    ensures
        r@ == display_list(view_types(v@)),
    decreases sizes(view_types(v@)), 2nat,
{
    let ghost vs = view_types(v@);
    proof {
        lemma_view_types(v@);
    }
    let mut r = String::new();
    let n = v.len();
    for i in 0..n
        invariant
            n == v@.len(),
            vs == view_types(v@),
            vs.len() == n,
            forall|k: int| 0 <= k < n ==> #[trigger] vs[k] == v@[k]@,
            r@ == display_list(vs.take(i as int)),
    {
        proof {
            lemma_sizes_elem(vs, i as int);
            assert(vs.take(i + 1).drop_last() =~= vs.take(i as int));
        }
        let d = v[i].to_display_string();
        if i > 0 {
            r.append(", ");
        }
        let ghost before = r@;
        r.append(d.as_str());
        proof {
            if i == 0 {
                assert(vs.take(1)[0] == vs[0]);
                assert(r@ =~= display(vs[0]));
            }
        }
    }
    assert(vs.take(n as int) =~= vs);
    r
}

impl Type {
    /// Check if this type is numeric (Int or Float).
    pub fn is_numeric(&self) -> (r: bool)
        ensures
            r == (self@ is Int || self@ is Float),
    {
        matches!(self, Type::Int | Type::Float)
    }

    /// Check if this type is an error type.
    pub fn is_error(&self) -> (r: bool)
        ensures
            r == (self@ is Error),
    {
        matches!(self, Type::Error)
    }

    /// Unwrap an Inferred type to get the inner type; other types are returned as they are.
    pub fn unwrap_inferred(&self) -> (r: &Type)
        ensures
            r@ == unwrap_inferred_v(self@),
        decreases self,
    {
        match self {
            Type::Inferred(inner) => inner.unwrap_inferred(),
            other => other,
        }
    }

    /// Get the element type if this is a List, otherwise None.
    pub fn list_element(&self) -> (r: Option<&Type>)
        ensures
            match self@ {
                TypeV::List(e) => r is Some && r.unwrap()@ == *e,
                _ => r is None,
            },
    {
        match self {
            Type::List(elem) => Some(&**elem),
            _ => None,
        }
    }

    /// Get the inner type if this is an Option, otherwise None.
    pub fn option_inner(&self) -> (r: Option<&Type>)
        ensures
            match self@ {
                TypeV::Opt(e) => r is Some && r.unwrap()@ == *e,
                _ => r is None,
            },
    {
        match self {
            Type::Option(inner) => Some(&**inner),
            _ => None,
        }
    }

    /// Get the key and value types if this is a Map, otherwise None.
    pub fn map_key_value(&self) -> (r: Option<(&Type, &Type)>)
        ensures
            match self@ {
                TypeV::Dict(k, v) => r is Some && r.unwrap().0@ == *k && r.unwrap().1@ == *v,
                _ => r is None,
            },
    {
        match self {
            Type::Dict(key, value) => Some((&**key, &**value)),
            _ => None,
        }
    }

    /// Get the agent name if this is an Agent type, otherwise None.
    pub fn agent_name(&self) -> (r: Option<&str>)
        ensures
            match self@ {
                TypeV::Agent(n) => r is Some && r.unwrap()@ == n,
                _ => r is None,
            },
    {
        match self {
            Type::Agent(name) => Some(name.as_str()),
            _ => None,
        }
    }

    /// Check if this is a type parameter.
    pub fn is_type_param(&self) -> (r: bool)
        ensures
            r == (self@ is TypeParam),
    {
        matches!(self, Type::TypeParam(_))
    }

    /// Get the type parameter name if this is a TypeParam.
    pub fn type_param_name(&self) -> (r: Option<&str>)
        ensures
            match self@ {
                TypeV::TypeParam(n) => r is Some && r.unwrap()@ == n,
                _ => r is None,
            },
    {
        match self {
            Type::TypeParam(name) => Some(name.as_str()),
            _ => None,
        }
    }

    /// Check if two types are compatible for assignment/comparison
    /// (`Inferred<T>` is compatible with `T`).
    pub fn is_compatible_with(&self, other: &Type) -> (r: bool)
        ensures
            r == compatible(self@, other@),
        decreases size(self@) + size(other@), 1nat,
    {
        if self.same_as(other) {
            return true;
        }
        if self.is_error() || other.is_error() {
            return true;
        }
        if matches!(self, Type::Never) || matches!(other, Type::Never) {
            return true;
        }
        match (self, other) {
            (Type::Inferred(inner), _) => inner.is_compatible_with(other),
            (_, Type::Inferred(inner)) => inner.is_compatible_with(self),
            (Type::TypeParam(_), _) => true,
            (_, Type::TypeParam(_)) => true,
            (Type::Generic(name1, args1), Type::Generic(name2, args2)) => {
                proof {
                    lemma_view_types(args1@);
                    lemma_view_types(args2@);
                }
                if *name1 == *name2 && args1.len() == args2.len() {
                    all_compatible(args1, args2)
                } else {
                    false
                }
            },
            (Type::Generic(name1, args), Type::Named(name2)) => {
                proof {
                    lemma_view_types(args@);
                }
                *name1 == *name2 && args.len() == 0
            },
            (Type::Named(name2), Type::Generic(name1, args)) => {
                proof {
                    lemma_view_types(args@);
                }
                *name1 == *name2 && args.len() == 0
            },
            (Type::Fn(params1, ret1), Type::Fn(params2, ret2)) => {
                proof {
                    lemma_view_types(params1@);
                    lemma_view_types(params2@);
                }
                if params1.len() != params2.len() {
                    return false;
                }
                all_compatible(params1, params2) && ret1.is_compatible_with(ret2)
            },
            (Type::Dict(k1, v1), Type::Dict(k2, v2)) => k1.is_compatible_with(k2)
                && v1.is_compatible_with(v2),
            (Type::Tuple(elems1), Type::Tuple(elems2)) => {
                proof {
                    lemma_view_types(elems1@);
                    lemma_view_types(elems2@);
                }
                if elems1.len() != elems2.len() {
                    return false;
                }
                all_compatible(elems1, elems2)
            },
            (Type::Result(ok1, err1), Type::Result(ok2, err2)) => ok1.is_compatible_with(ok2)
                && err1.is_compatible_with(err2),
            (Type::List(elem1), Type::List(elem2)) => elem1.is_compatible_with(elem2),
            (Type::Option(inner1), Type::Option(inner2)) => inner1.is_compatible_with(inner2),
            _ => false,
        }
    }

    /// Get the parameter types if this is a function type.
    pub fn fn_params(&self) -> (r: Option<&[Type]>)
        ensures
            match self@ {
                TypeV::Func(ps, _) => r is Some && view_types(r.unwrap()@) == ps,
                _ => r is None,
            },
    {
        match self {
            Type::Fn(params, _) => Some(params.as_slice()),
            _ => None,
        }
    }

    /// Get the return type if this is a function type.
    pub fn fn_return(&self) -> (r: Option<&Type>)
        ensures
            match self@ {
                TypeV::Func(_, ret) => r is Some && r.unwrap()@ == *ret,
                _ => r is None,
            },
    {
        match self {
            Type::Fn(_, ret) => Some(&**ret),
            _ => None,
        }
    }

    /// Check if this is a function type.
    pub fn is_fn(&self) -> (r: bool)
        ensures
            r == (self@ is Func),
    {
        matches!(self, Type::Fn(_, _))
    }

    /// Substitute type parameters with concrete types; `bindings` maps type
    /// parameter names to their concrete types. Unbound parameters stay.
    pub fn substitute(&self, bindings: &NameMap<Type>) -> (r: Type)
        requires
            bindings.wf(),
        ensures
            r@ == subst(self@, bindings_view(bindings@)),
        decreases size(self@), 1nat,
    {
        match self {
            Type::TypeParam(name) => match bindings.get(name.as_str()) {
                Some(t) => t.deep_copy(),
                None => self.deep_copy(),
            },
            Type::List(elem) => Type::List(Box::new(elem.substitute(bindings))),
            Type::Option(inner) => Type::Option(Box::new(inner.substitute(bindings))),
            Type::Inferred(inner) => Type::Inferred(Box::new(inner.substitute(bindings))),
            Type::Dict(key, value) => Type::Dict(
                Box::new(key.substitute(bindings)),
                Box::new(value.substitute(bindings)),
            ),
            Type::Tuple(elems) => Type::Tuple(subst_types(elems, bindings)),
            Type::Result(ok, err) => Type::Result(
                Box::new(ok.substitute(bindings)),
                Box::new(err.substitute(bindings)),
            ),
            Type::Fn(params, ret) => {
                let ps = subst_types(params, bindings);
                Type::Fn(ps, Box::new(ret.substitute(bindings)))
            },
            Type::Generic(name, args) => Type::Generic(name.clone(), subst_types(args, bindings)),
            _ => self.deep_copy(),
        }
    }

    /// Check if this type contains any type parameters.
    pub fn has_type_params(&self) -> (r: bool)
        ensures
            r == has_params(self@),
        decreases size(self@), 1nat,
    {
        match self {
            Type::TypeParam(_) => true,
            Type::List(elem) => elem.has_type_params(),
            Type::Option(elem) => elem.has_type_params(),
            Type::Inferred(elem) => elem.has_type_params(),
            Type::Dict(key, value) => key.has_type_params() || value.has_type_params(),
            Type::Result(key, value) => key.has_type_params() || value.has_type_params(),
            Type::Tuple(elems) => any_type_params(elems),
            Type::Fn(params, ret) => any_type_params(params) || ret.has_type_params(),
            Type::Generic(_, args) => any_type_params(args),
            _ => false,
        }
    }

    /// Collect all type parameter names in this type into `params`.
    pub fn collect_type_params(&self, params: &mut NameSet)
        requires
            old(params).wf(),
        ensures
            final(params).wf(),
            final(params)@ == old(params)@.union(params_of(self@)),
        decreases size(self@), 1nat,
    {
        let ghost start = params@;
        match self {
            Type::TypeParam(name) => {
                params.insert(name.clone());
                assert(params@ =~= start.union(params_of(self@)));
            },
            Type::List(elem) => elem.collect_type_params(params),
            Type::Option(elem) => elem.collect_type_params(params),
            Type::Inferred(elem) => elem.collect_type_params(params),
            Type::Dict(key, value) => {
                key.collect_type_params(params);
                value.collect_type_params(params);
                assert(params@ =~= start.union(params_of(self@)));
            },
            Type::Result(key, value) => {
                key.collect_type_params(params);
                value.collect_type_params(params);
                assert(params@ =~= start.union(params_of(self@)));
            },
            Type::Tuple(elems) => collect_all_type_params(elems, params),
            Type::Fn(param_types, ret) => {
                collect_all_type_params(param_types, params);
                ret.collect_type_params(params);
                assert(params@ =~= start.union(params_of(self@)));
            },
            Type::Generic(_, args) => collect_all_type_params(args, params),
            _ => {
                assert(params@ =~= start.union(params_of(self@)));
            },
        }
    }

    /// The written form of this type, e.g. `List<String>` or `Fn(Int) -> Bool`.
    pub fn to_display_string(&self) -> (r: String)
        ensures
            r@ == display(self@),
        decreases size(self@), 1nat,
    {
        match self {
            Type::Int => String::from_str("Int"),
            Type::Float => String::from_str("Float"),
            Type::Bool => String::from_str("Bool"),
            Type::String => String::from_str("String"),
            Type::Unit => String::from_str("Unit"),
            Type::List(elem) => {
                let mut r = String::from_str("List<");
                r.append(elem.to_display_string().as_str());
                r.append(">");
                r
            },
            Type::Option(inner) => {
                let mut r = String::from_str("Option<");
                r.append(inner.to_display_string().as_str());
                r.append(">");
                r
            },
            Type::Inferred(inner) => {
                let mut r = String::from_str("Inferred<");
                r.append(inner.to_display_string().as_str());
                r.append(">");
                r
            },
            Type::Agent(name) => {
                let mut r = String::from_str("Agent<");
                r.append(name.as_str());
                r.append(">");
                r
            },
            Type::Named(name) => name.clone(),
            Type::Generic(name, args) => {
                let mut r = name.clone();
                r.append("<");
                r.append(display_types(args).as_str());
                r.append(">");
                r
            },
            Type::TypeParam(name) => name.clone(),
            Type::Fn(params, ret) => {
                let mut r = String::from_str("Fn(");
                r.append(display_types(params).as_str());
                r.append(") -> ");
                r.append(ret.to_display_string().as_str());
                r
            },
            Type::Dict(key, value) => {
                let mut r = String::from_str("Map<");
                r.append(key.to_display_string().as_str());
                r.append(", ");
                r.append(value.to_display_string().as_str());
                r.append(">");
                r
            },
            Type::Tuple(elems) => {
                let mut r = String::from_str("(");
                r.append(display_types(elems).as_str());
                r.append(")");
                r
            },
            Type::Result(ok, err) => {
                let mut r = String::from_str("Result<");
                r.append(ok.to_display_string().as_str());
                r.append(", ");
                r.append(err.to_display_string().as_str());
                r.append(">");
                r
            },
            Type::Never => String::from_str("Never"),
            Type::Error => String::from_str("<error>"),
        }
    }
}

/// Every type is compatible with itself.
pub proof fn law_compatible_reflexive(t: TypeV)
    ensures
        compatible(t, t),
{
}

/// `Error` and `Never` are compatible with every type, on either side.
pub proof fn law_error_and_never_compatible(t: TypeV)
    ensures
        compatible(TypeV::Error, t),
        compatible(t, TypeV::Error),
        compatible(TypeV::Never, t),
        compatible(t, TypeV::Never),
{
}

/// `Inferred<T>` is compatible with `T` when the wrapper stands on the left.
proof fn lemma_inferred_left(t: TypeV)
    ensures
        compatible(TypeV::Inferred(Box::new(t)), t),
{
    let i = TypeV::Inferred(Box::new(t));
    assert(size(i) == size(t) + 1);
    assert(compatible(t, t));
}

/// `Inferred<T>` is compatible with `T`, on either side.
pub proof fn law_inferred_compatible(t: TypeV)
    ensures
        compatible(TypeV::Inferred(Box::new(t)), t),
        compatible(t, TypeV::Inferred(Box::new(t))),
{
    lemma_inferred_left(t);
    law_compatible_symmetric(t, TypeV::Inferred(Box::new(t)));
}

/// Every type has a positive size.
proof fn lemma_size_pos(t: TypeV)
    ensures
        size(t) >= 1,
{
}

/// A type parameter is compatible with every type, on either side.
pub proof fn law_type_param_compatible(n: Seq<char>, t: TypeV)
    ensures
        compatible(TypeV::TypeParam(n), t),
        compatible(t, TypeV::TypeParam(n)),
    decreases t,
{
    let p = TypeV::TypeParam(n);
    if !(p == t || t is Error || t is Never) {
        match t {
            TypeV::Inferred(inner) => {
                law_type_param_compatible(n, *inner);
            },
            _ => {},
        }
    }
}

/// A type is compatible with itself stripped of its `Inferred` wrappers.
pub proof fn law_unwrap_inferred_compatible(t: TypeV)
    ensures
        compatible(t, unwrap_inferred_v(t)),
        !(unwrap_inferred_v(t) is Inferred),
    decreases t,
{
    match t {
        TypeV::Inferred(inner) => {
            law_unwrap_inferred_compatible(*inner);
            assert(size(t) == size(*inner) + 1);
        },
        _ => {},
    }
}

/// Compatibility is symmetric.
pub proof fn law_compatible_symmetric(a: TypeV, b: TypeV)
    ensures
        compatible(a, b) == compatible(b, a),
    decreases size(a) + size(b), 1nat,
{
    if a == b || a is Error || b is Error || a is Never || b is Never {
        return ;
    }
    match (a, b) {
        (TypeV::Inferred(ia), TypeV::Inferred(ib)) => {
            law_compatible_symmetric(*ia, b);
            law_compatible_symmetric(*ib, a);
            law_compatible_symmetric(*ia, *ib);
            assert(size(a) == size(*ia) + 1);
            assert(size(b) == size(*ib) + 1);
            if b == *ia {
                lemma_inferred_left(*ib);
            }
            if a == *ib {
                lemma_inferred_left(*ia);
            }
        },
        (TypeV::Inferred(ia), _) => {},
        (_, TypeV::Inferred(ib)) => {},
        (TypeV::TypeParam(_), _) => {},
        (_, TypeV::TypeParam(_)) => {},
        (TypeV::Generic(n1, a1), TypeV::Generic(n2, a2)) => {
            if a1.len() == a2.len() {
                law_compatible_all_symmetric(a1, a2);
            }
        },
        (TypeV::Func(p1, r1), TypeV::Func(p2, r2)) => {
            if p1.len() == p2.len() {
                law_compatible_all_symmetric(p1, p2);
            }
            law_compatible_symmetric(*r1, *r2);
        },
        (TypeV::Dict(k1, v1), TypeV::Dict(k2, v2)) => {
            law_compatible_symmetric(*k1, *k2);
            law_compatible_symmetric(*v1, *v2);
        },
        (TypeV::Tuple(e1), TypeV::Tuple(e2)) => {
            if e1.len() == e2.len() {
                law_compatible_all_symmetric(e1, e2);
            }
        },
        (TypeV::Res(o1, e1), TypeV::Res(o2, e2)) => {
            law_compatible_symmetric(*o1, *o2);
            law_compatible_symmetric(*e1, *e2);
        },
        (TypeV::List(e1), TypeV::List(e2)) => {
            law_compatible_symmetric(*e1, *e2);
        },
        (TypeV::Opt(e1), TypeV::Opt(e2)) => {
            law_compatible_symmetric(*e1, *e2);
        },
        _ => {},
    }
}

/// Pairwise compatibility of sequences of equal length is symmetric.
pub proof fn law_compatible_all_symmetric(s1: Seq<TypeV>, s2: Seq<TypeV>)
    requires
        s1.len() == s2.len(),
    ensures
        compatible_all(s1, s2) == compatible_all(s2, s1),
    decreases sizes(s1) + sizes(s2), 2nat,
{
    if s1.len() > 0 {
        lemma_size_pos(s1.last());
        lemma_size_pos(s2.last());
        law_compatible_all_symmetric(s1.drop_last(), s2.drop_last());
        law_compatible_symmetric(s1.last(), s2.last());
    }
}

/// A type mentions a type parameter exactly when it has a type parameter to collect.
pub proof fn law_has_params_iff_collected(t: TypeV)
    ensures
        has_params(t) <==> has_member(params_of(t)),
    decreases t,
{
    match t {
        TypeV::TypeParam(n) => {
            assert(params_of(t).contains(n));
        },
        TypeV::List(e) => law_has_params_iff_collected(*e),
        TypeV::Opt(e) => law_has_params_iff_collected(*e),
        TypeV::Inferred(e) => law_has_params_iff_collected(*e),
        TypeV::Dict(k, v) => {
            law_has_params_iff_collected(*k);
            law_has_params_iff_collected(*v);
            lemma_union_nonempty(params_of(*k), params_of(*v));
        },
        TypeV::Res(k, v) => {
            law_has_params_iff_collected(*k);
            law_has_params_iff_collected(*v);
            lemma_union_nonempty(params_of(*k), params_of(*v));
        },
        TypeV::Tuple(es) => law_any_has_params_iff_collected(es),
        TypeV::Func(ps, r) => {
            law_any_has_params_iff_collected(ps);
            law_has_params_iff_collected(*r);
            lemma_union_nonempty(params_of_all(ps), params_of(*r));
        },
        TypeV::Generic(_, args) => law_any_has_params_iff_collected(args),
        _ => {
            assert(params_of(t) =~= Set::empty());
        },
    }
}

/// A sequence mentions a type parameter exactly when it has one to collect.
pub proof fn law_any_has_params_iff_collected(s: Seq<TypeV>)
    ensures
        any_has_params(s) <==> has_member(params_of_all(s)),
    decreases s,
{
    if s.len() > 0 {
        law_any_has_params_iff_collected(s.drop_last());
        law_has_params_iff_collected(s.last());
        lemma_union_nonempty(params_of_all(s.drop_last()), params_of(s.last()));
    } else {
        assert(params_of_all(s) =~= Set::empty());
    }
}

/// The set has at least one member.
pub open spec fn has_member(s: Set<Seq<char>>) -> bool {
    exists|n: Seq<char>| s.contains(n)
}

proof fn lemma_union_nonempty(a: Set<Seq<char>>, b: Set<Seq<char>>)
    ensures
        has_member(a.union(b)) <==> (has_member(a) || has_member(b)),
{
    if has_member(a.union(b)) {
        let n = choose|n: Seq<char>| a.union(b).contains(n);
        assert(a.contains(n) || b.contains(n));
    }
    if has_member(a) {
        let n = choose|n: Seq<char>| a.contains(n);
        assert(a.union(b).contains(n));
    }
    if has_member(b) {
        let n = choose|n: Seq<char>| b.contains(n);
        assert(a.union(b).contains(n));
    }
}

/// Substituting into a type without type parameters leaves it unchanged.
pub proof fn law_subst_without_params(t: TypeV, b: Map<Seq<char>, TypeV>)
    requires
        !has_params(t),
    ensures
        subst(t, b) == t,
    decreases t,
{
    match t {
        TypeV::List(e) => law_subst_without_params(*e, b),
        TypeV::Opt(e) => law_subst_without_params(*e, b),
        TypeV::Inferred(e) => law_subst_without_params(*e, b),
        TypeV::Dict(k, v) => {
            law_subst_without_params(*k, b);
            law_subst_without_params(*v, b);
        },
        TypeV::Res(k, v) => {
            law_subst_without_params(*k, b);
            law_subst_without_params(*v, b);
        },
        TypeV::Tuple(es) => law_subst_all_without_params(es, b),
        TypeV::Func(ps, r) => {
            law_subst_all_without_params(ps, b);
            law_subst_without_params(*r, b);
        },
        TypeV::Generic(_, args) => law_subst_all_without_params(args, b),
        _ => {},
    }
}

/// Substituting into types without type parameters leaves them unchanged.
pub proof fn law_subst_all_without_params(s: Seq<TypeV>, b: Map<Seq<char>, TypeV>)
    requires
        !any_has_params(s),
    ensures
        subst_all(s, b) == s,
    decreases s,
{
    if s.len() > 0 {
        law_subst_all_without_params(s.drop_last(), b);
        law_subst_without_params(s.last(), b);
        assert(s.drop_last().push(s.last()) =~= s);
    }
}

/// Substitution with no bindings leaves every type unchanged.
pub proof fn law_subst_empty(t: TypeV)
    ensures
        subst(t, Map::empty()) == t,
    decreases t,
{
    match t {
        TypeV::List(e) => law_subst_empty(*e),
        TypeV::Opt(e) => law_subst_empty(*e),
        TypeV::Inferred(e) => law_subst_empty(*e),
        TypeV::Dict(k, v) => {
            law_subst_empty(*k);
            law_subst_empty(*v);
        },
        TypeV::Res(k, v) => {
            law_subst_empty(*k);
            law_subst_empty(*v);
        },
        TypeV::Tuple(es) => law_subst_all_empty(es),
        TypeV::Func(ps, r) => {
            law_subst_all_empty(ps);
            law_subst_empty(*r);
        },
        TypeV::Generic(_, args) => law_subst_all_empty(args),
        _ => {},
    }
}

/// Substitution with no bindings leaves every sequence of types unchanged.
pub proof fn law_subst_all_empty(s: Seq<TypeV>)
    ensures
        subst_all(s, Map::empty()) == s,
    decreases s,
{
    if s.len() > 0 {
        law_subst_all_empty(s.drop_last());
        law_subst_empty(s.last());
        assert(s.drop_last().push(s.last()) =~= s);
    }
}

/// When every type parameter of a type is bound to a type without type
/// parameters, the substituted type has no type parameters left.
pub proof fn law_subst_closes(t: TypeV, b: Map<Seq<char>, TypeV>)
    requires
        forall|n: Seq<char>| #[trigger] params_of(t).contains(n) ==> b.contains_key(n) && !has_params(
            b[n],
        ),
    ensures
        !has_params(subst(t, b)),
    decreases t,
{
    match t {
        TypeV::TypeParam(n) => {
            assert(params_of(t).contains(n));
        },
        TypeV::List(e) => {
            assert(params_of(t) == params_of(*e));
            law_subst_closes(*e, b);
        },
        TypeV::Opt(e) => {
            assert(params_of(t) == params_of(*e));
            law_subst_closes(*e, b);
        },
        TypeV::Inferred(e) => {
            assert(params_of(t) == params_of(*e));
            law_subst_closes(*e, b);
        },
        TypeV::Dict(k, v) => {
            assert forall|n: Seq<char>| #[trigger] params_of(*k).contains(n) implies b.contains_key(n)
                && !has_params(b[n]) by {
                assert(params_of(t).contains(n));
            }
            assert forall|n: Seq<char>| #[trigger] params_of(*v).contains(n) implies b.contains_key(n)
                && !has_params(b[n]) by {
                assert(params_of(t).contains(n));
            }
            law_subst_closes(*k, b);
            law_subst_closes(*v, b);
        },
        TypeV::Res(k, v) => {
            assert forall|n: Seq<char>| #[trigger] params_of(*k).contains(n) implies b.contains_key(n)
                && !has_params(b[n]) by {
                assert(params_of(t).contains(n));
            }
            assert forall|n: Seq<char>| #[trigger] params_of(*v).contains(n) implies b.contains_key(n)
                && !has_params(b[n]) by {
                assert(params_of(t).contains(n));
            }
            law_subst_closes(*k, b);
            law_subst_closes(*v, b);
        },
        TypeV::Tuple(es) => {
            assert(params_of(t) == params_of_all(es));
            law_subst_all_closes(es, b);
        },
        TypeV::Func(ps, r) => {
            assert forall|n: Seq<char>| #[trigger] params_of_all(ps).contains(n) implies b.contains_key(n)
                && !has_params(b[n]) by {
                assert(params_of(t).contains(n));
            }
            assert forall|n: Seq<char>| #[trigger] params_of(*r).contains(n) implies b.contains_key(n)
                && !has_params(b[n]) by {
                assert(params_of(t).contains(n));
            }
            law_subst_all_closes(ps, b);
            law_subst_closes(*r, b);
        },
        TypeV::Generic(_, args) => {
            assert(params_of(t) == params_of_all(args));
            law_subst_all_closes(args, b);
        },
        _ => {},
    }
}

/// Sequence form of [`law_subst_closes`].
pub proof fn law_subst_all_closes(s: Seq<TypeV>, b: Map<Seq<char>, TypeV>)
    requires
        forall|n: Seq<char>| #[trigger] params_of_all(s).contains(n) ==> b.contains_key(n)
            && !has_params(b[n]),
    ensures
        !any_has_params(subst_all(s, b)),
    decreases s,
{
    if s.len() > 0 {
        assert forall|n: Seq<char>| #[trigger] params_of_all(s.drop_last()).contains(n) implies b.contains_key(n)
            && !has_params(b[n]) by {
            assert(params_of_all(s).contains(n));
        }
        assert forall|n: Seq<char>| #[trigger] params_of(s.last()).contains(n) implies b.contains_key(n)
            && !has_params(b[n]) by {
            assert(params_of_all(s).contains(n));
        }
        law_subst_all_closes(s.drop_last(), b);
        law_subst_closes(s.last(), b);
        let r = subst_all(s, b);
        assert(r.drop_last() =~= subst_all(s.drop_last(), b));
    }
}
} // verus!
