use sage_checker::ast::{
    AgentDecl, BeliefDecl, BinOp, Block, ClosureParam, ConstDecl, EnumDecl, EnumVariant, EventKind,
    Expr, FieldInit, FnDecl, HandlerDecl, Ident, Literal, MatchArm, Param, Pattern, Program,
    RecordDecl, RecordField, Span, Stmt, StringPart, StringTemplate, TypeExpr,
};
use sage_checker::checker::{check, CheckResult};
use sage_checker::error::CheckError;

fn sp() -> Span {
    Span { start: 0, end: 0 }
}

fn id(n: &str) -> Ident {
    Ident { name: n.to_string(), span: sp() }
}

fn int_lit(v: i64) -> Expr {
    Expr::Literal { value: Literal::Int(v), span: sp() }
}

fn float(text: &str) -> Expr {
    Expr::Literal { value: Literal::Float(text.to_string()), span: sp() }
}

fn string(s: &str) -> Expr {
    Expr::Literal { value: Literal::String(s.to_string()), span: sp() }
}

fn boolean(b: bool) -> Expr {
    Expr::Literal { value: Literal::Bool(b), span: sp() }
}

fn var(n: &str) -> Expr {
    Expr::Var { name: id(n), span: sp() }
}

fn call(n: &str, args: Vec<Expr>) -> Expr {
    Expr::Call { name: id(n), args, span: sp() }
}

fn bin(op: BinOp, l: Expr, r: Expr) -> Expr {
    Expr::Binary { op, left: Box::new(l), right: Box::new(r), span: sp() }
}

fn self_field(n: &str) -> Expr {
    Expr::SelfField { field: id(n), span: sp() }
}

fn divine(text: &str) -> Expr {
    Expr::Infer {
        template: StringTemplate { parts: vec![StringPart::Literal(text.to_string())], span: sp() },
        result_ty: None,
        span: sp(),
    }
}

fn try_(e: Expr) -> Expr {
    Expr::Try { expr: Box::new(e), span: sp() }
}

fn await_(e: Expr) -> Expr {
    Expr::Await { handle: Box::new(e), span: sp() }
}

fn summon(agent: &str, fields: Vec<(&str, Expr)>) -> Expr {
    Expr::Spawn { agent: id(agent), fields: inits(fields), span: sp() }
}

fn inits(fields: Vec<(&str, Expr)>) -> Vec<FieldInit> {
    fields
        .into_iter()
        .map(|(n, value)| FieldInit { name: id(n), value, span: sp() })
        .collect()
}

fn record_lit(name: &str, fields: Vec<(&str, Expr)>) -> Expr {
    Expr::RecordConstruct { name: id(name), fields: inits(fields), span: sp() }
}

fn yield_(e: Expr) -> Stmt {
    Stmt::Expr { expr: Expr::Emit { value: Box::new(e), span: sp() }, span: sp() }
}

fn let_(n: &str, e: Expr) -> Stmt {
    Stmt::Let { name: id(n), ty: None, value: e, span: sp() }
}

fn let_ty(n: &str, ty: TypeExpr, e: Expr) -> Stmt {
    Stmt::Let { name: id(n), ty: Some(ty), value: e, span: sp() }
}

fn assign(n: &str, e: Expr) -> Stmt {
    Stmt::Assign { name: id(n), value: e, span: sp() }
}

fn expr_stmt(e: Expr) -> Stmt {
    Stmt::Expr { expr: e, span: sp() }
}

fn ret(e: Expr) -> Stmt {
    Stmt::Return { value: Some(e), span: sp() }
}

fn block(stmts: Vec<Stmt>) -> Block {
    Block { stmts, span: sp() }
}

fn named(n: &str) -> TypeExpr {
    TypeExpr::Named(id(n), vec![])
}

fn on_start(stmts: Vec<Stmt>) -> HandlerDecl {
    HandlerDecl { event: EventKind::Start, body: block(stmts), span: sp() }
}

fn on_error(param: &str, stmts: Vec<Stmt>) -> HandlerDecl {
    HandlerDecl { event: EventKind::Error { param_name: id(param) }, body: block(stmts), span: sp() }
}

fn agent(name: &str, beliefs: Vec<(&str, TypeExpr)>, handlers: Vec<HandlerDecl>) -> AgentDecl {
    agent_receiving(name, None, beliefs, handlers)
}

fn agent_receiving(
    name: &str,
    receives: Option<TypeExpr>,
    beliefs: Vec<(&str, TypeExpr)>,
    handlers: Vec<HandlerDecl>,
) -> AgentDecl {
    AgentDecl {
        is_pub: false,
        name: id(name),
        receives,
        beliefs: beliefs
            .into_iter()
            .map(|(n, ty)| BeliefDecl { is_persistent: false, name: id(n), ty, span: sp() })
            .collect(),
        handlers,
        span: sp(),
    }
}

fn func(name: &str, params: Vec<(&str, TypeExpr)>, ret_ty: TypeExpr, fallible: bool, body: Vec<Stmt>) -> FnDecl {
    FnDecl {
        is_pub: false,
        name: id(name),
        params: params
            .into_iter()
            .map(|(n, ty)| Param { name: id(n), ty, span: sp() })
            .collect(),
        return_ty: ret_ty,
        is_fallible: fallible,
        body: block(body),
        span: sp(),
    }
}

fn record(name: &str, fields: Vec<(&str, TypeExpr)>) -> RecordDecl {
    RecordDecl {
        is_pub: false,
        name: id(name),
        fields: fields
            .into_iter()
            .map(|(n, ty)| RecordField { name: id(n), ty, span: sp() })
            .collect(),
        span: sp(),
    }
}

fn enum_(name: &str, variants: Vec<&str>) -> EnumDecl {
    EnumDecl {
        is_pub: false,
        name: id(name),
        variants: variants
            .into_iter()
            .map(|n| EnumVariant { name: id(n), payload: None, span: sp() })
            .collect(),
        span: sp(),
    }
}

fn const_(name: &str, ty: TypeExpr, value: Expr) -> ConstDecl {
    ConstDecl { is_pub: false, name: id(name), ty, value, span: sp() }
}

fn arm(pattern: Pattern, body: Expr) -> MatchArm {
    MatchArm { pattern, body, span: sp() }
}

fn variant_pat(n: &str) -> Pattern {
    Pattern::Variant { enum_name: None, variant: id(n), payload: None, span: sp() }
}

fn lit_pat(value: Literal) -> Pattern {
    Pattern::Literal { value, span: sp() }
}

fn match_(scrutinee: Expr, arms: Vec<MatchArm>) -> Expr {
    Expr::Match { scrutinee: Box::new(scrutinee), arms, span: sp() }
}

fn closure(params: Vec<(&str, Option<TypeExpr>)>, body: Expr) -> Expr {
    Expr::Closure {
        params: params
            .into_iter()
            .map(|(n, ty)| ClosureParam { name: id(n), ty, span: sp() })
            .collect(),
        body: Box::new(body),
        span: sp(),
    }
}

struct Decls {
    agents: Vec<AgentDecl>,
    functions: Vec<FnDecl>,
    records: Vec<RecordDecl>,
    enums: Vec<EnumDecl>,
    consts: Vec<ConstDecl>,
}

fn decls() -> Decls {
    Decls { agents: vec![], functions: vec![], records: vec![], enums: vec![], consts: vec![] }
}

fn check_program(d: Decls, run: Option<&str>) -> CheckResult {
    let program = Program {
        use_decls: vec![],
        agents: d.agents,
        functions: d.functions,
        records: d.records,
        enums: d.enums,
        consts: d.consts,
        run_agent: run.map(id),
    };
    check(&program)
}

/// `agent Main { on start { body } } run Main;`
fn main_only(body: Vec<Stmt>) -> CheckResult {
    let mut d = decls();
    d.agents.push(agent("Main", vec![], vec![on_start(body)]));
    check_program(d, Some("Main"))
}

/// `agent Main { on start { yield(0); } }` after the given declarations.
fn with_trivial_main(mut d: Decls) -> CheckResult {
    d.agents.push(agent("Main", vec![], vec![on_start(vec![yield_(int_lit(0))])]));
    check_program(d, Some("Main"))
}

#[test]
fn check_minimal_valid_program() {
    let result = main_only(vec![yield_(int_lit(42))]);
    assert!(result.errors.is_empty(), "errors: {:?}", result.errors);
}

#[test]
fn check_undefined_variable() {
    let result = main_only(vec![yield_(var("x"))]);
    assert!(!result.errors.is_empty());
    assert!(matches!(result.errors[0], CheckError::UndefinedVariable { .. }));
}

#[test]
fn check_type_mismatch_in_binary_op() {
    let result = main_only(vec![
        let_("x", bin(BinOp::Add, int_lit(1), string("hello"))),
        yield_(var("x")),
    ]);
    assert!(!result.errors.is_empty());
    assert!(matches!(result.errors[0], CheckError::InvalidBinaryOp { .. }));
}

#[test]
fn check_let_with_type_annotation() {
    let result = main_only(vec![
        let_ty("x", TypeExpr::Int, int_lit(42)),
        let_ty("y", TypeExpr::String, string("hello")),
        yield_(var("x")),
    ]);
    assert!(result.errors.is_empty(), "errors: {:?}", result.errors);
}

#[test]
fn check_type_mismatch_in_let() {
    let result = main_only(vec![let_ty("x", TypeExpr::String, int_lit(42)), yield_(var("x"))]);
    assert!(!result.errors.is_empty());
    assert!(matches!(result.errors[0], CheckError::TypeMismatch { .. }));
}

#[test]
fn check_function_call() {
    let mut d = decls();
    d.functions.push(func(
        "add",
        vec![("a", TypeExpr::Int), ("b", TypeExpr::Int)],
        TypeExpr::Int,
        false,
        vec![ret(bin(BinOp::Add, var("a"), var("b")))],
    ));
    d.agents.push(agent(
        "Main",
        vec![],
        vec![on_start(vec![let_("sum", call("add", vec![int_lit(1), int_lit(2)])), yield_(var("sum"))])],
    ));
    let result = check_program(d, Some("Main"));
    assert!(result.errors.is_empty(), "errors: {:?}", result.errors);
}

#[test]
fn check_wrong_arg_count() {
    let mut d = decls();
    d.functions.push(func(
        "greet",
        vec![("name", TypeExpr::String)],
        TypeExpr::String,
        false,
        vec![ret(var("name"))],
    ));
    d.agents.push(agent(
        "Main",
        vec![],
        vec![on_start(vec![
            let_("msg", call("greet", vec![string("a"), string("b")])),
            yield_(var("msg")),
        ])],
    ));
    let result = check_program(d, Some("Main"));
    assert!(!result.errors.is_empty());
    assert!(matches!(result.errors[0], CheckError::WrongArgCount { .. }));
}

#[test]
fn check_spawn_with_beliefs() {
    let mut d = decls();
    d.agents.push(agent(
        "Worker",
        vec![("name", TypeExpr::String)],
        vec![on_start(vec![yield_(self_field("name"))])],
    ));
    d.agents.push(agent(
        "Main",
        vec![],
        vec![
            on_start(vec![
                let_("w", summon("Worker", vec![("name", string("test"))])),
                let_("result", try_(await_(var("w")))),
                yield_(var("result")),
            ]),
            on_error("e", vec![yield_(string("error"))]),
        ],
    ));
    let result = check_program(d, Some("Main"));
    assert!(result.errors.is_empty(), "errors: {:?}", result.errors);
}

#[test]
fn check_missing_belief_init() {
    let mut d = decls();
    d.agents.push(agent(
        "Worker",
        vec![("name", TypeExpr::String)],
        vec![on_start(vec![yield_(self_field("name"))])],
    ));
    d.agents.push(agent(
        "Main",
        vec![],
        vec![on_start(vec![let_("w", summon("Worker", vec![])), yield_(int_lit(0))])],
    ));
    let result = check_program(d, Some("Main"));
    assert!(!result.errors.is_empty());
    assert!(matches!(result.errors[0], CheckError::MissingBeliefInit { .. }));
}

#[test]
fn check_entry_agent_with_beliefs() {
    let mut d = decls();
    d.agents.push(agent(
        "Main",
        vec![("x", TypeExpr::Int)],
        vec![on_start(vec![yield_(self_field("x"))])],
    ));
    let result = check_program(d, Some("Main"));
    assert!(!result.errors.is_empty());
    assert!(matches!(result.errors[0], CheckError::EntryAgentHasBeliefs { .. }));
}

#[test]
fn check_for_loop() {
    let list = Expr::List { elements: vec![int_lit(1), int_lit(2), int_lit(3)], span: sp() };
    let result = main_only(vec![
        Stmt::For {
            pattern: Pattern::Binding { name: id("x"), span: sp() },
            iter: list,
            body: block(vec![expr_stmt(call("print", vec![call("int_to_str", vec![var("x")])]))]),
            span: sp(),
        },
        yield_(int_lit(0)),
    ]);
    assert!(result.errors.is_empty(), "errors: {:?}", result.errors);
}

#[test]
fn check_if_non_bool_condition() {
    let result = main_only(vec![
        Stmt::If { condition: int_lit(42), then_block: block(vec![yield_(int_lit(1))]), else_block: None, span: sp() },
        yield_(int_lit(0)),
    ]);
    assert!(!result.errors.is_empty());
    assert!(matches!(result.errors[0], CheckError::NonBoolCondition { .. }));
}

#[test]
fn check_while_loop() {
    let result = main_only(vec![
        let_("n", int_lit(5)),
        Stmt::While {
            condition: bin(BinOp::Gt, var("n"), int_lit(0)),
            body: block(vec![assign("n", bin(BinOp::Sub, var("n"), int_lit(1)))]),
            span: sp(),
        },
        yield_(var("n")),
    ]);
    assert!(result.errors.is_empty(), "errors: {:?}", result.errors);
}

#[test]
fn check_while_non_bool_condition() {
    let result = main_only(vec![
        Stmt::While { condition: int_lit(42), body: block(vec![yield_(int_lit(1))]), span: sp() },
        yield_(int_lit(0)),
    ]);
    assert!(!result.errors.is_empty());
    assert!(matches!(result.errors[0], CheckError::NonBoolCondition { .. }));
}

#[test]
fn check_self_outside_agent() {
    let mut d = decls();
    d.functions.push(func("broken", vec![], TypeExpr::Int, false, vec![ret(self_field("x"))]));
    let result = with_trivial_main(d);
    assert!(!result.errors.is_empty());
    assert!(matches!(result.errors[0], CheckError::SelfOutsideAgent { .. }));
}

#[test]
fn check_divine_returns_oracle_type() {
    let mut d = decls();
    d.agents.push(agent(
        "Main",
        vec![],
        vec![
            on_start(vec![
                let_ty("x", TypeExpr::Oracle(Box::new(TypeExpr::String)), try_(divine("Hello"))),
                yield_(var("x")),
            ]),
            on_error("e", vec![yield_(string("error"))]),
        ],
    ));
    let result = check_program(d, Some("Main"));
    assert!(result.errors.is_empty(), "errors: {:?}", result.errors);
}

#[test]
fn check_string_concat() {
    let result = main_only(vec![
        let_("msg", bin(BinOp::Concat, string("Hello, "), string("World"))),
        yield_(var("msg")),
    ]);
    assert!(result.errors.is_empty(), "errors: {:?}", result.errors);
}

#[test]
fn check_builtin_print() {
    let result = main_only(vec![expr_stmt(call("print", vec![string("Hello")])), yield_(int_lit(0))]);
    assert!(result.errors.is_empty(), "errors: {:?}", result.errors);
}

#[test]
fn check_unused_belief_warning() {
    let mut d = decls();
    d.agents.push(agent(
        "Worker",
        vec![("unused", TypeExpr::Int)],
        vec![on_start(vec![yield_(int_lit(42))])],
    ));
    d.agents.push(agent(
        "Main",
        vec![],
        vec![
            on_start(vec![
                let_("w", summon("Worker", vec![("unused", int_lit(1))])),
                let_("result", try_(await_(var("w")))),
                yield_(var("result")),
            ]),
            on_error("e", vec![yield_(int_lit(0))]),
        ],
    ));
    let result = check_program(d, Some("Main"));
    assert_eq!(result.errors.len(), 1);
    assert!(matches!(result.errors[0], CheckError::UnusedBelief { .. }));
}

#[test]
fn check_used_belief_no_warning() {
    let mut d = decls();
    d.agents.push(agent(
        "Worker",
        vec![("value", TypeExpr::Int)],
        vec![on_start(vec![yield_(bin(BinOp::Mul, self_field("value"), int_lit(2)))])],
    ));
    d.agents.push(agent(
        "Main",
        vec![],
        vec![
            on_start(vec![
                let_("w", summon("Worker", vec![("value", int_lit(21))])),
                let_("result", try_(await_(var("w")))),
                yield_(var("result")),
            ]),
            on_error("e", vec![yield_(int_lit(0))]),
        ],
    ));
    let result = check_program(d, Some("Main"));
    assert!(result.errors.is_empty(), "errors: {:?}", result.errors);
}

#[test]
fn check_str_builtin() {
    let all = bin(
        BinOp::Concat,
        bin(BinOp::Concat, bin(BinOp::Concat, var("a"), var("b")), var("c")),
        var("d"),
    );
    let result = main_only(vec![
        let_("a", call("str", vec![int_lit(42)])),
        let_("b", call("str", vec![float("3.14")])),
        let_("c", call("str", vec![boolean(true)])),
        let_("d", call("str", vec![string("hello")])),
        expr_stmt(call("print", vec![all])),
        yield_(int_lit(0)),
    ]);
    assert!(result.errors.is_empty(), "errors: {:?}", result.errors);
}

fn interp(parts: Vec<StringPart>) -> Expr {
    Expr::StringInterp { template: StringTemplate { parts, span: sp() }, span: sp() }
}

#[test]
fn check_string_interpolation() {
    let msg = interp(vec![
        StringPart::Literal("Hello, ".to_string()),
        StringPart::Interpolation(id("name")),
        StringPart::Literal("! Count is ".to_string()),
        StringPart::Interpolation(id("count")),
        StringPart::Literal(".".to_string()),
    ]);
    let result = main_only(vec![
        let_("name", string("World")),
        let_("count", int_lit(42)),
        let_("msg", msg),
        expr_stmt(call("print", vec![var("msg")])),
        yield_(int_lit(0)),
    ]);
    assert!(result.errors.is_empty(), "errors: {:?}", result.errors);
}

#[test]
fn check_string_interpolation_undefined_var() {
    let msg = interp(vec![
        StringPart::Literal("Hello, ".to_string()),
        StringPart::Interpolation(id("undefined")),
        StringPart::Literal("!".to_string()),
    ]);
    let result = main_only(vec![let_("msg", msg), yield_(int_lit(0))]);
    assert!(!result.errors.is_empty());
    assert!(matches!(result.errors[0], CheckError::UndefinedVariable { .. }));
}

fn point() -> RecordDecl {
    record("Point", vec![("x", TypeExpr::Int), ("y", TypeExpr::Int)])
}

fn main_with_record(body: Vec<Stmt>) -> CheckResult {
    let mut d = decls();
    d.records.push(point());
    d.agents.push(agent("Main", vec![], vec![on_start(body)]));
    check_program(d, Some("Main"))
}

#[test]
fn check_record_construction() {
    let result = main_with_record(vec![
        let_("p", record_lit("Point", vec![("x", int_lit(10)), ("y", int_lit(20))])),
        yield_(int_lit(0)),
    ]);
    assert!(result.errors.is_empty(), "errors: {:?}", result.errors);
}

fn field(object: Expr, f: &str) -> Expr {
    Expr::FieldAccess { object: Box::new(object), field: id(f), span: sp() }
}

#[test]
fn check_record_field_access() {
    let result = main_with_record(vec![
        let_("p", record_lit("Point", vec![("x", int_lit(10)), ("y", int_lit(20))])),
        let_("sum", bin(BinOp::Add, field(var("p"), "x"), field(var("p"), "y"))),
        yield_(var("sum")),
    ]);
    assert!(result.errors.is_empty(), "errors: {:?}", result.errors);
}

#[test]
fn check_record_missing_field() {
    let result = main_with_record(vec![
        let_("p", record_lit("Point", vec![("x", int_lit(10))])),
        yield_(int_lit(0)),
    ]);
    assert!(!result.errors.is_empty());
    assert!(matches!(result.errors[0], CheckError::MissingField { .. }));
}

#[test]
fn check_record_unknown_field() {
    let result = main_with_record(vec![
        let_("p", record_lit("Point", vec![("x", int_lit(10)), ("y", int_lit(20)), ("z", int_lit(30))])),
        yield_(int_lit(0)),
    ]);
    assert!(!result.errors.is_empty());
    assert!(matches!(result.errors[0], CheckError::UnknownField { .. }));
}

#[test]
fn check_undefined_record_type() {
    let result = main_only(vec![
        let_("p", record_lit("Unknown", vec![("x", int_lit(10))])),
        yield_(int_lit(0)),
    ]);
    assert!(!result.errors.is_empty());
    assert!(matches!(result.errors[0], CheckError::UndefinedType { .. }));
}

#[test]
fn check_field_access_on_non_record() {
    let result = main_only(vec![let_("x", int_lit(42)), let_("y", field(var("x"), "field")), yield_(int_lit(0))]);
    assert!(!result.errors.is_empty());
    assert!(matches!(result.errors[0], CheckError::FieldAccessOnNonRecord { .. }));
}

#[test]
fn check_record_field_type_mismatch() {
    let result = main_with_record(vec![
        let_("p", record_lit("Point", vec![("x", string("not an int")), ("y", int_lit(20))])),
        yield_(int_lit(0)),
    ]);
    assert!(!result.errors.is_empty());
    assert!(matches!(result.errors[0], CheckError::TypeMismatch { .. }));
}

fn status_check(variants: Vec<&str>, arms: Vec<MatchArm>) -> CheckResult {
    let mut d = decls();
    d.enums.push(enum_("Status", variants));
    d.functions.push(func(
        "check_status",
        vec![("s", named("Status"))],
        TypeExpr::Int,
        false,
        vec![ret(match_(var("s"), arms))],
    ));
    with_trivial_main(d)
}

#[test]
fn check_match_exhaustive_enum() {
    let result = status_check(
        vec!["Active", "Inactive"],
        vec![arm(variant_pat("Active"), int_lit(1)), arm(variant_pat("Inactive"), int_lit(0))],
    );
    assert!(result.errors.is_empty(), "errors: {:?}", result.errors);
}

#[test]
fn check_match_non_exhaustive_enum() {
    let result = status_check(
        vec!["Active", "Inactive", "Pending"],
        vec![arm(variant_pat("Active"), int_lit(1)), arm(variant_pat("Inactive"), int_lit(0))],
    );
    assert!(!result.errors.is_empty());
    assert!(matches!(result.errors[0], CheckError::NonExhaustiveMatch { .. }));
}

#[test]
fn check_match_with_wildcard() {
    let result = status_check(
        vec!["Active", "Inactive", "Pending"],
        vec![arm(variant_pat("Active"), int_lit(1)), arm(Pattern::Wildcard { span: sp() }, int_lit(0))],
    );
    assert!(result.errors.is_empty(), "errors: {:?}", result.errors);
}

fn bool_to_int(arms: Vec<MatchArm>) -> CheckResult {
    let mut d = decls();
    d.functions.push(func(
        "bool_to_int",
        vec![("b", TypeExpr::Bool)],
        TypeExpr::Int,
        false,
        vec![ret(match_(var("b"), arms))],
    ));
    with_trivial_main(d)
}

#[test]
fn check_match_bool_exhaustive() {
    let result = bool_to_int(vec![
        arm(lit_pat(Literal::Bool(true)), int_lit(1)),
        arm(lit_pat(Literal::Bool(false)), int_lit(0)),
    ]);
    assert!(result.errors.is_empty(), "errors: {:?}", result.errors);
}

#[test]
fn check_match_bool_non_exhaustive() {
    let result = bool_to_int(vec![arm(lit_pat(Literal::Bool(true)), int_lit(1))]);
    assert!(!result.errors.is_empty());
    assert!(matches!(result.errors[0], CheckError::NonExhaustiveMatch { .. }));
}

#[test]
fn check_match_int_needs_wildcard() {
    let mut d = decls();
    d.functions.push(func(
        "check_int",
        vec![("n", TypeExpr::Int)],
        TypeExpr::String,
        false,
        vec![ret(match_(
            var("n"),
            vec![arm(lit_pat(Literal::Int(1)), string("one")), arm(lit_pat(Literal::Int(2)), string("two"))],
        ))],
    ));
    let result = with_trivial_main(d);
    assert!(!result.errors.is_empty());
    assert!(matches!(result.errors[0], CheckError::NonExhaustiveMatch { .. }));
}

#[test]
fn check_match_binding_pattern() {
    let mut d = decls();
    d.functions.push(func(
        "describe",
        vec![("n", TypeExpr::Int)],
        TypeExpr::String,
        false,
        vec![ret(match_(
            var("n"),
            vec![
                arm(lit_pat(Literal::Int(1)), string("one")),
                arm(Pattern::Binding { name: id("x"), span: sp() }, string("other")),
            ],
        ))],
    ));
    let result = with_trivial_main(d);
    assert!(result.errors.is_empty(), "errors: {:?}", result.errors);
}

#[test]
fn check_const_declaration() {
    let mut d = decls();
    d.consts.push(const_("MAX_SIZE", TypeExpr::Int, int_lit(100)));
    d.consts.push(const_("GREETING", TypeExpr::String, string("Hello")));
    d.agents.push(agent(
        "Main",
        vec![],
        vec![on_start(vec![
            let_("x", var("MAX_SIZE")),
            expr_stmt(call("print", vec![var("GREETING")])),
            yield_(var("x")),
        ])],
    ));
    let result = check_program(d, Some("Main"));
    assert!(result.errors.is_empty(), "errors: {:?}", result.errors);
}

#[test]
fn check_const_type_mismatch() {
    let mut d = decls();
    d.consts.push(const_("VALUE", TypeExpr::Int, string("not an int")));
    let result = with_trivial_main(d);
    assert!(!result.errors.is_empty());
    assert!(matches!(result.errors[0], CheckError::TypeMismatch { .. }));
}

#[test]
fn check_const_used_as_variable() {
    let mut d = decls();
    d.consts.push(const_("PI", TypeExpr::Float, float("3.14")));
    d.functions.push(func(
        "area",
        vec![("r", TypeExpr::Float)],
        TypeExpr::Float,
        false,
        vec![ret(bin(BinOp::Mul, bin(BinOp::Mul, var("PI"), var("r")), var("r")))],
    ));
    let result = with_trivial_main(d);
    assert!(result.errors.is_empty(), "errors: {:?}", result.errors);
}

#[test]
fn check_loop_break() {
    let result = main_only(vec![
        let_("count", int_lit(0)),
        Stmt::Loop {
            body: block(vec![
                assign("count", bin(BinOp::Add, var("count"), int_lit(1))),
                Stmt::If {
                    condition: bin(BinOp::Gt, var("count"), int_lit(5)),
                    then_block: block(vec![Stmt::Break { span: sp() }]),
                    else_block: None,
                    span: sp(),
                },
            ]),
            span: sp(),
        },
        yield_(var("count")),
    ]);
    assert!(result.errors.is_empty(), "errors: {:?}", result.errors);
}

#[test]
fn check_break_outside_loop() {
    let result = main_only(vec![Stmt::Break { span: sp() }, yield_(int_lit(0))]);
    assert!(!result.errors.is_empty());
    assert!(matches!(result.errors[0], CheckError::BreakOutsideLoop { .. }));
}

#[test]
fn check_receive_with_receives() {
    let mut d = decls();
    d.enums.push(enum_("WorkerMsg", vec!["Task", "Shutdown"]));
    d.agents.push(agent_receiving(
        "Worker",
        Some(named("WorkerMsg")),
        vec![],
        vec![on_start(vec![let_("msg", Expr::Receive { span: sp() }), yield_(int_lit(0))])],
    ));
    let result = with_trivial_main(d);
    assert!(result.errors.is_empty(), "errors: {:?}", result.errors);
}

#[test]
fn check_receive_without_receives() {
    let result = main_only(vec![let_("msg", Expr::Receive { span: sp() }), yield_(int_lit(0))]);
    assert!(!result.errors.is_empty());
    assert!(matches!(result.errors[0], CheckError::ReceiveWithoutReceives { .. }));
}

#[test]
fn check_closure_with_typed_params() {
    let result = main_only(vec![
        let_("f", closure(vec![("x", Some(TypeExpr::Int))], bin(BinOp::Add, var("x"), int_lit(1)))),
        yield_(int_lit(0)),
    ]);
    assert!(result.errors.is_empty(), "errors: {:?}", result.errors);
}

#[test]
fn check_closure_param_needs_type() {
    let result = main_only(vec![
        let_("f", closure(vec![("x", None)], bin(BinOp::Add, var("x"), int_lit(1)))),
        yield_(int_lit(0)),
    ]);
    assert!(!result.errors.is_empty());
    assert!(matches!(result.errors[0], CheckError::ClosureParamNeedsType { .. }));
}

#[test]
fn check_closure_body_type_error() {
    let result = main_only(vec![
        let_("f", closure(vec![("x", Some(TypeExpr::Int))], bin(BinOp::Add, var("x"), string("invalid")))),
        yield_(int_lit(0)),
    ]);
    assert!(!result.errors.is_empty());
    assert!(matches!(result.errors[0], CheckError::InvalidBinaryOp { .. }));
}

#[test]
fn check_empty_closure() {
    let result = main_only(vec![let_("f", closure(vec![], int_lit(42))), yield_(int_lit(0))]);
    assert!(result.errors.is_empty(), "errors: {:?}", result.errors);
}

#[test]
fn check_e013_unhandled_divine() {
    let result = main_only(vec![let_("x", divine("Hello")), yield_(var("x"))]);
    assert!(!result.errors.is_empty());
    assert!(matches!(result.errors[0], CheckError::UnhandledError { .. }));
}

#[test]
fn check_e013_unhandled_await() {
    let mut d = decls();
    d.agents.push(agent("Worker", vec![], vec![on_start(vec![yield_(int_lit(42))])]));
    d.agents.push(agent(
        "Main",
        vec![],
        vec![on_start(vec![
            let_("w", summon("Worker", vec![])),
            let_("result", await_(var("w"))),
            yield_(var("result")),
        ])],
    ));
    let result = check_program(d, Some("Main"));
    assert!(!result.errors.is_empty());
    assert!(matches!(result.errors[0], CheckError::UnhandledError { .. }));
}

#[test]
fn check_e013_handled_with_try() {
    let mut d = decls();
    d.agents.push(agent(
        "Main",
        vec![],
        vec![
            on_start(vec![let_("x", try_(divine("Hello"))), yield_(var("x"))]),
            on_error("e", vec![yield_(string("error"))]),
        ],
    ));
    let result = check_program(d, Some("Main"));
    assert!(result.errors.is_empty(), "errors: {:?}", result.errors);
}

#[test]
fn check_e013_handled_with_catch() {
    let caught = Expr::Catch {
        expr: Box::new(divine("Hello")),
        error_bind: None,
        recovery: Box::new(string("fallback")),
        span: sp(),
    };
    let result = main_only(vec![let_("x", caught), yield_(var("x"))]);
    assert!(result.errors.is_empty(), "errors: {:?}", result.errors);
}

#[test]
fn check_e013_fallible_function_unhandled() {
    let mut d = decls();
    d.functions.push(func("risky", vec![], TypeExpr::Int, true, vec![ret(int_lit(42))]));
    d.agents.push(agent(
        "Main",
        vec![],
        vec![on_start(vec![let_("x", call("risky", vec![])), yield_(var("x"))])],
    ));
    let result = check_program(d, Some("Main"));
    assert!(!result.errors.is_empty());
    assert!(matches!(result.errors[0], CheckError::UnhandledError { .. }));
}

#[test]
fn check_e013_fallible_function_handled() {
    let mut d = decls();
    d.functions.push(func("risky", vec![], TypeExpr::Int, true, vec![ret(int_lit(42))]));
    d.agents.push(agent(
        "Main",
        vec![],
        vec![
            on_start(vec![let_("x", try_(call("risky", vec![]))), yield_(var("x"))]),
            on_error("e", vec![yield_(int_lit(0))]),
        ],
    ));
    let result = check_program(d, Some("Main"));
    assert!(result.errors.is_empty(), "errors: {:?}", result.errors);
}

#[test]
fn error_messages() {
    let e = CheckError::wrong_arg_count("f", 2, 3, &sp());
    assert_eq!(e.message(), "function `f` expects 2 arguments, found 3");
    let e = CheckError::private_item("Worker", "agents", &sp());
    assert_eq!(e.message(), "item `Worker` in module `agents` is private");
    let e = CheckError::self_outside_agent(&sp());
    assert_eq!(e.message(), "`self` used outside of agent context");
}
