use sage_checker::ast::{Ident, Span, TypeExpr};
use sage_checker::resolve::resolve_type;
use sage_checker::scope::{Scope, SymbolTable};
use sage_checker::types::Type;

#[test]
fn type_display() {
    assert_eq!(Type::Int.to_display_string(), "Int");
    assert_eq!(
        Type::List(Box::new(Type::String)).to_display_string(),
        "List<String>"
    );
    assert_eq!(
        Type::Inferred(Box::new(Type::String)).to_display_string(),
        "Inferred<String>"
    );
    assert_eq!(
        Type::Agent("Foo".to_string()).to_display_string(),
        "Agent<Foo>"
    );
}

#[test]
fn type_is_numeric() {
    assert!(Type::Int.is_numeric());
    assert!(Type::Float.is_numeric());
    assert!(!Type::String.is_numeric());
    assert!(!Type::Bool.is_numeric());
}

#[test]
fn type_unwrap_inferred() {
    let t = Type::Inferred(Box::new(Type::String));
    assert_eq!(t.unwrap_inferred(), &Type::String);

    let nested = Type::Inferred(Box::new(Type::Inferred(Box::new(Type::Int))));
    assert_eq!(nested.unwrap_inferred(), &Type::Int);

    assert_eq!(Type::Int.unwrap_inferred(), &Type::Int);
}

#[test]
fn type_compatibility() {
    assert!(Type::Int.is_compatible_with(&Type::Int));
    assert!(!Type::Int.is_compatible_with(&Type::String));

    let inferred_string = Type::Inferred(Box::new(Type::String));
    assert!(inferred_string.is_compatible_with(&Type::String));
    assert!(Type::String.is_compatible_with(&inferred_string));

    assert!(Type::Error.is_compatible_with(&Type::Int));
    assert!(Type::Int.is_compatible_with(&Type::Error));
}

#[test]
fn fn_type_display() {
    let fn_type = Type::Fn(vec![Type::Int], Box::new(Type::Bool));
    assert_eq!(fn_type.to_display_string(), "Fn(Int) -> Bool");

    let fn_type = Type::Fn(vec![Type::String, Type::Int], Box::new(Type::Unit));
    assert_eq!(fn_type.to_display_string(), "Fn(String, Int) -> Unit");

    let fn_type = Type::Fn(vec![], Box::new(Type::String));
    assert_eq!(fn_type.to_display_string(), "Fn() -> String");
}

#[test]
fn fn_type_compatibility() {
    let fn1 = Type::Fn(vec![Type::Int], Box::new(Type::Bool));
    let fn2 = Type::Fn(vec![Type::Int], Box::new(Type::Bool));
    let fn3 = Type::Fn(vec![Type::String], Box::new(Type::Bool));
    let fn4 = Type::Fn(vec![Type::Int, Type::Int], Box::new(Type::Bool));

    assert!(fn1.is_compatible_with(&fn2));
    assert!(!fn1.is_compatible_with(&fn3));
    assert!(!fn1.is_compatible_with(&fn4));
    assert!(!fn1.is_compatible_with(&Type::Int));
}

#[test]
fn fn_type_accessors() {
    let fn_type = Type::Fn(vec![Type::Int, Type::String], Box::new(Type::Bool));

    assert!(fn_type.is_fn());
    assert_eq!(fn_type.fn_params(), Some(&[Type::Int, Type::String][..]));
    assert_eq!(fn_type.fn_return(), Some(&Type::Bool));

    assert!(!Type::Int.is_fn());
    assert_eq!(Type::Int.fn_params(), None);
    assert_eq!(Type::Int.fn_return(), None);
}

#[test]
fn scope_define_and_get() {
    let mut scope = Scope::new();
    scope.define("x".to_string(), Type::Int);
    scope.define("y".to_string(), Type::String);

    assert_eq!(scope.get("x"), Some(&Type::Int));
    assert_eq!(scope.get("y"), Some(&Type::String));
    assert_eq!(scope.get("z"), None);
}

#[test]
fn symbol_table_has_builtins() {
    let table = SymbolTable::new();

    assert!(table.has_builtin("print"));
    assert!(table.has_builtin("len"));
    assert!(table.has_builtin("join"));
    assert!(!table.has_builtin("nonexistent"));
}

#[test]
fn resolve_type_primitives() {
    assert_eq!(resolve_type(&TypeExpr::Int), Type::Int);
    assert_eq!(resolve_type(&TypeExpr::Float), Type::Float);
    assert_eq!(resolve_type(&TypeExpr::Bool), Type::Bool);
    assert_eq!(resolve_type(&TypeExpr::String), Type::String);
    assert_eq!(resolve_type(&TypeExpr::Unit), Type::Unit);
}

#[test]
fn resolve_type_compound() {
    let list_int = TypeExpr::List(Box::new(TypeExpr::Int));
    assert_eq!(resolve_type(&list_int), Type::List(Box::new(Type::Int)));

    let inferred_string = TypeExpr::Oracle(Box::new(TypeExpr::String));
    assert_eq!(
        resolve_type(&inferred_string),
        Type::Inferred(Box::new(Type::String))
    );
}

#[test]
fn resolve_type_fn() {
    let fn_type = TypeExpr::Fn(vec![TypeExpr::Int], Box::new(TypeExpr::Bool));
    assert_eq!(
        resolve_type(&fn_type),
        Type::Fn(vec![Type::Int], Box::new(Type::Bool))
    );

    let fn_type = TypeExpr::Fn(
        vec![TypeExpr::String, TypeExpr::Int],
        Box::new(TypeExpr::Unit),
    );
    assert_eq!(
        resolve_type(&fn_type),
        Type::Fn(vec![Type::String, Type::Int], Box::new(Type::Unit))
    );

    let fn_type = TypeExpr::Fn(vec![], Box::new(TypeExpr::String));
    assert_eq!(
        resolve_type(&fn_type),
        Type::Fn(vec![], Box::new(Type::String))
    );
}

#[test]
fn resolve_named_generic_and_error_types() {
    let span = Span { start: 0, end: 0 };
    let pair = TypeExpr::Named(
        Ident { name: "Pair".to_string(), span },
        vec![TypeExpr::Int, TypeExpr::String],
    );
    assert_eq!(
        resolve_type(&pair),
        Type::Generic("Pair".to_string(), vec![Type::Int, Type::String])
    );
    let point = TypeExpr::Named(Ident { name: "Point".to_string(), span }, vec![]);
    assert_eq!(resolve_type(&point), Type::Named("Point".to_string()));
    assert_eq!(resolve_type(&TypeExpr::Error), Type::Named("Error".to_string()));
    let map = TypeExpr::Dict(Box::new(TypeExpr::String), Box::new(TypeExpr::Int));
    assert_eq!(
        resolve_type(&map),
        Type::Dict(Box::new(Type::String), Box::new(Type::Int))
    );
}

#[test]
fn resolve_type_parameter_in_scope() {
    let span = Span { start: 0, end: 0 };
    let mut params = sage_checker::names::NameSet::new();
    params.insert("T".to_string());
    let t = TypeExpr::Named(Ident { name: "T".to_string(), span }, vec![]);
    assert_eq!(
        sage_checker::resolve::resolve_type_with_params(&t, &params),
        Type::TypeParam("T".to_string())
    );
    assert_eq!(resolve_type(&t), Type::Named("T".to_string()));
}
