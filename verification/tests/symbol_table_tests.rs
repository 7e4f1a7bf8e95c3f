use sage_checker::scope::{ConstInfo, FunctionInfo, SymbolTable};
use sage_checker::types::Type;

#[test]
fn defines_leave_builtins_unchanged() {
    let mut t = SymbolTable::new();
    let before_len = t.get_builtin("len").map(|b| b.name);
    let before_print = t.has_builtin("print");
    t.define_function(FunctionInfo {
        name: "len".to_string(),
        type_params: vec![],
        params: vec![("x".to_string(), Type::Int)],
        return_type: Type::Int,
        is_pub: false,
        module: vec![],
        is_fallible: false,
    });
    t.define_const(ConstInfo { name: "print".to_string(), ty: Type::Int, is_pub: false, module: vec![] });
    assert_eq!(t.get_builtin("len").map(|b| b.name), before_len);
    assert_eq!(t.has_builtin("print"), before_print);
    assert!(t.get_builtin("len").is_some());
    assert!(t.get_builtin("no_such_builtin").is_none());
    assert!(!t.has_builtin("no_such_builtin"));
    assert!(t.has_function("len"));
}
