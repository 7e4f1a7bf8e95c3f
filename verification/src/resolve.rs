//! Resolution of written types (`TypeExpr`) to checker types (`Type`).

use vstd::prelude::*;
use crate::ast::TypeExpr;
use crate::names::NameSet;
use crate::types::Type;
use crate::types::TypeV;
use crate::types::view_types;
use crate::types::lemma_view_types;

verus! {

/// The model of the type that `t` resolves to, where the names in `params`
/// are type parameters in scope.
pub open spec fn resolved(t: TypeExpr, params: Set<Seq<char>>) -> TypeV
    decreases t,
{
    match t {
        TypeExpr::Int => TypeV::Int,
        TypeExpr::Float => TypeV::Float,
        TypeExpr::Bool => TypeV::Bool,
        TypeExpr::String => TypeV::Str,
        TypeExpr::Unit => TypeV::Unit,
        TypeExpr::List(inner) => TypeV::List(Box::new(resolved(*inner, params))),
        TypeExpr::Option(inner) => TypeV::Opt(Box::new(resolved(*inner, params))),
        TypeExpr::Oracle(inner) => TypeV::Inferred(Box::new(resolved(*inner, params))),
        TypeExpr::Agent(id) => TypeV::Agent(id.name@),
        TypeExpr::Named(id, args) => {
            if params.contains(id.name@) {
                TypeV::TypeParam(id.name@)
            } else if args@.len() > 0 {
                TypeV::Generic(id.name@, resolved_all(args@, params))
            } else {
                TypeV::Named(id.name@)
            }
        },
        TypeExpr::Fn(ps, ret) => TypeV::Func(resolved_all(ps@, params), Box::new(resolved(*ret, params))),
        TypeExpr::Dict(k, v) => TypeV::Dict(
            Box::new(resolved(*k, params)),
            Box::new(resolved(*v, params)),
        ),
        TypeExpr::Tuple(es) => TypeV::Tuple(resolved_all(es@, params)),
        TypeExpr::Result(o, e) => TypeV::Res(
            Box::new(resolved(*o, params)),
            Box::new(resolved(*e, params)),
        ),
        TypeExpr::Error => TypeV::Named("Error"@),
    }
}

/// The models of the types that a list of written types resolves to.
pub open spec fn resolved_all(s: Seq<TypeExpr>, params: Set<Seq<char>>) -> Seq<TypeV>
    decreases s,
{
    if s.len() == 0 {
        Seq::empty()
    } else {
        resolved_all(s.drop_last(), params).push(resolved(s.last(), params))
    }
}

/// The resolved list has one model per written type, in order.
pub proof fn lemma_resolved_all(s: Seq<TypeExpr>, params: Set<Seq<char>>)
    ensures
        resolved_all(s, params).len() == s.len(),
        forall|k: int| 0 <= k < s.len() ==> #[trigger] resolved_all(s, params)[k] == resolved(s[k], params),
    decreases s.len(),
{
    if s.len() > 0 {
        lemma_resolved_all(s.drop_last(), params);
    }
}

/// Resolves each written type of a list.
fn resolve_all(ts: &Vec<TypeExpr>, type_params: &NameSet) -> (r: Vec<Type>)
    ensures
        view_types(r@) == resolved_all(ts@, type_params@),
    decreases ts,
{
    let mut r: Vec<Type> = Vec::new();
    let n = ts.len();
    proof {
        lemma_resolved_all(ts@, type_params@);
    }
    for i in 0..n
        invariant
            n == ts@.len(),
            r@.len() == i,
            forall|k: int| 0 <= k < i ==> #[trigger] r@[k]@ == resolved(ts@[k], type_params@),
    {
        assert(decreases_to!(ts => ts@[i as int]));
        let t = resolve_type_with_params(&ts[i], type_params);
        r.push(t);
    }
    proof {
        lemma_view_types(r@);
        lemma_resolved_all(ts@, type_params@);
        assert(view_types(r@) =~= resolved_all(ts@, type_params@));
    }
    r
}

/// Convert a written type to a checker type, recognizing the type parameters
/// in scope: a name in `type_params` is a type parameter, a name with type
/// arguments is a generic type, and any other name is a named type.
pub fn resolve_type_with_params(ty: &TypeExpr, type_params: &NameSet) -> (r: Type)
    ensures
        r@ == resolved(*ty, type_params@),
    decreases ty,
{
    match ty {
        TypeExpr::Int => Type::Int,
        TypeExpr::Float => Type::Float,
        TypeExpr::Bool => Type::Bool,
        TypeExpr::String => Type::String,
        TypeExpr::Unit => Type::Unit,
        TypeExpr::List(inner) => Type::List(Box::new(resolve_type_with_params(inner, type_params))),
        TypeExpr::Option(inner) => Type::Option(Box::new(resolve_type_with_params(inner, type_params))),
        TypeExpr::Oracle(inner) => Type::Inferred(
            Box::new(resolve_type_with_params(inner, type_params)),
        ),
        TypeExpr::Agent(ident) => Type::Agent(ident.name.clone()),
        TypeExpr::Named(ident, type_args) => {
            if type_params.contains(ident.name.as_str()) {
                return Type::TypeParam(ident.name.clone());
            }
            if type_args.len() > 0 {
                let resolved_args = resolve_all(type_args, type_params);
                return Type::Generic(ident.name.clone(), resolved_args);
            }
            Type::Named(ident.name.clone())
        },
        TypeExpr::Fn(params, ret) => {
            let param_types = resolve_all(params, type_params);
            let ret_type = Box::new(resolve_type_with_params(ret, type_params));
            Type::Fn(param_types, ret_type)
        },
        TypeExpr::Dict(key, value) => Type::Dict(
            Box::new(resolve_type_with_params(key, type_params)),
            Box::new(resolve_type_with_params(value, type_params)),
        ),
        TypeExpr::Tuple(elems) => Type::Tuple(resolve_all(elems, type_params)),
        TypeExpr::Result(ok, err) => Type::Result(
            Box::new(resolve_type_with_params(ok, type_params)),
            Box::new(resolve_type_with_params(err, type_params)),
        ),
        TypeExpr::Error => Type::Named(String::from_str("Error")),
    }
}

/// Convert a written type to a checker type, outside any generic context.
pub fn resolve_type(ty: &TypeExpr) -> (r: Type)
    ensures
        r@ == resolved(*ty, Set::empty()),
{
    let params = NameSet::new();
    resolve_type_with_params(ty, &params)
}

} // verus!
