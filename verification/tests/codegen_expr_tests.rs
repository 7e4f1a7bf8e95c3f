use sage_checker::ast::{BinOp, Block, ClosureParam, ConstDecl, ElseBranch, Expr, FieldInit, FnDecl, Ident, Literal};
use sage_checker::ast::{MapEntry, Param, Pattern, Span, Stmt, StringPart, StringTemplate, TypeExpr, UnaryOp};
use sage_checker::exprgen::to_snake_case;
use sage_checker::generator::Generator;

fn sp() -> Span {
    Span { start: 0, end: 0 }
}

fn id(n: &str) -> Ident {
    Ident { name: n.to_string(), span: sp() }
}

fn int_lit(n: i64) -> Expr {
    Expr::Literal { value: Literal::Int(n), span: sp() }
}

fn var(n: &str) -> Expr {
    Expr::Var { name: id(n), span: sp() }
}

fn text(s: &str) -> Expr {
    Expr::Literal { value: Literal::String(s.to_string()), span: sp() }
}

fn bin(op: BinOp, l: Expr, r: Expr) -> Expr {
    Expr::Binary { op, left: Box::new(l), right: Box::new(r), span: sp() }
}

fn call(n: &str, args: Vec<Expr>) -> Expr {
    Expr::Call { name: id(n), args, span: sp() }
}

fn expr_text(e: &Expr) -> String {
    let mut g = Generator::new();
    g.write("x = ");
    g.generate_expr(e);
    let out = g.finish();
    out["x = ".len()..].to_string()
}

fn block(stmts: Vec<Stmt>) -> Block {
    Block { stmts, span: sp() }
}

#[test]
fn snake_case_names() {
    assert_eq!(to_snake_case("WorkerAgent"), "worker_agent");
    assert_eq!(to_snake_case("Main"), "main");
    assert_eq!(to_snake_case("already_snake"), "already_snake");
    assert_eq!(to_snake_case("HTTPServer"), "h_t_t_p_server");
    assert_eq!(to_snake_case(""), "");
}

#[test]
fn literals_and_variables() {
    assert_eq!(expr_text(&int_lit(42)), "42_i64");
    assert_eq!(expr_text(&int_lit(-7)), "-7_i64");
    assert_eq!(expr_text(&int_lit(i64::MIN)), "-9223372036854775808_i64");
    assert_eq!(expr_text(&Expr::Literal { value: Literal::Float("2.5".to_string()), span: sp() }), "2.5_f64");
    assert_eq!(expr_text(&Expr::Literal { value: Literal::Bool(true), span: sp() }), "true");
    assert_eq!(expr_text(&text("say \"hi\"\n")), "\"say \\\"hi\\\"\\n\".to_string()");
    assert_eq!(expr_text(&var("count")), "count");
    assert_eq!(expr_text(&var("PI")), "std::f64::consts::PI");
    assert_eq!(expr_text(&var("MS_PER_DAY")), "86400000_i64");
}

#[test]
fn operators_and_calls() {
    assert_eq!(expr_text(&bin(BinOp::Add, var("a"), var("b"))), "a + b");
    assert_eq!(expr_text(&bin(BinOp::Gt, var("x"), int_lit(5))), "x > 5_i64");
    assert_eq!(expr_text(&bin(BinOp::Concat, var("a"), text("!"))), "format!(\"{}{}\", a, \"!\".to_string())");
    assert_eq!(
        expr_text(&Expr::Unary { op: UnaryOp::Not, operand: Box::new(var("done")), span: sp() }),
        "!done"
    );
    assert_eq!(expr_text(&call("add", vec![int_lit(1), var("y")])), "add((1_i64).clone(), (y).clone())");
    assert_eq!(expr_text(&call("nothing", vec![])), "nothing()");
    let tried = Expr::Try { expr: Box::new(call("fallible", vec![])), span: sp() };
    assert_eq!(expr_text(&tried), "fallible()?");
}

#[test]
fn collections_and_records() {
    let list = Expr::List { elements: vec![int_lit(1), int_lit(2), int_lit(3)], span: sp() };
    assert_eq!(expr_text(&list), "vec![1_i64, 2_i64, 3_i64]");
    let tuple = Expr::Tuple { elements: vec![int_lit(1), text("a")], span: sp() };
    assert_eq!(expr_text(&tuple), "(1_i64, \"a\".to_string())");
    let index = Expr::TupleIndex { tuple: Box::new(var("t")), index: 12, span: sp() };
    assert_eq!(expr_text(&index), "t.12");
    let empty = Expr::Dict { entries: vec![], span: sp() };
    assert_eq!(expr_text(&empty), "std::collections::HashMap::new()");
    let dict = Expr::Dict {
        entries: vec![MapEntry { key: text("k"), value: int_lit(1), span: sp() }, MapEntry { key: text("j"), value: int_lit(2), span: sp() }],
        span: sp(),
    };
    assert_eq!(
        expr_text(&dict),
        "std::collections::HashMap::from([(\"k\".to_string(), 1_i64), (\"j\".to_string(), 2_i64)])"
    );
    let record = Expr::RecordConstruct {
        name: id("Point"),
        fields: vec![FieldInit { name: id("x"), value: int_lit(1), span: sp() }, FieldInit { name: id("y"), value: int_lit(2), span: sp() }],
        span: sp(),
    };
    assert_eq!(expr_text(&record), "Point { x: 1_i64, y: 2_i64 }");
    let variant = Expr::VariantConstruct { enum_name: id("Shape"), variant: id("Circle"), payload: Some(Box::new(int_lit(3))), span: sp() };
    assert_eq!(expr_text(&variant), "Shape::Circle(3_i64)");
    let field = Expr::FieldAccess { object: Box::new(var("p")), field: id("x"), span: sp() };
    assert_eq!(expr_text(&field), "p.x");
}

#[test]
fn agent_operations() {
    let send = Expr::Send {
        handle: Box::new(var("worker")),
        message: Box::new(Expr::VariantConstruct { enum_name: id("Cmd"), variant: id("Stop"), payload: None, span: sp() }),
        span: sp(),
    };
    assert_eq!(
        expr_text(&send),
        "worker.send_message(Message::new(Cmd::Stop)?.with_type_name(\"Cmd\")).await"
    );
    let plain_send = Expr::Send { handle: Box::new(var("w")), message: Box::new(int_lit(1)), span: sp() };
    assert_eq!(expr_text(&plain_send), "w.send(1_i64).await");
    let awaited = Expr::Await { handle: Box::new(var("h")), span: sp() };
    assert_eq!(expr_text(&awaited), "h.result().await");
    assert_eq!(expr_text(&Expr::Receive { span: sp() }), "ctx.receive().await?");
    let emitted = Expr::Emit { value: Box::new(int_lit(0)), span: sp() };
    assert_eq!(expr_text(&emitted), "ctx.emit(0_i64)");
    let tool = Expr::ToolCall { tool: id("Http"), function: id("get"), args: vec![text("u")], span: sp() };
    assert_eq!(expr_text(&tool), "self.http.get((\"u\".to_string()).clone()).await");
    let method = Expr::SelfMethodCall { method: id("step"), args: vec![int_lit(1)], span: sp() };
    assert_eq!(expr_text(&method), "self.step(1_i64)");
    let closure = Expr::Closure {
        params: vec![ClosureParam { name: id("a"), ty: Some(TypeExpr::Int), span: sp() }, ClosureParam { name: id("b"), ty: None, span: sp() }],
        body: Box::new(bin(BinOp::Mul, var("a"), var("b"))),
        span: sp(),
    };
    assert_eq!(expr_text(&closure), "Box::new(move |a: i64, b| a * b)");
}

#[test]
fn string_templates() {
    let interp = Expr::StringInterp {
        template: StringTemplate {
            parts: vec![
                StringPart::Literal("Hello, ".to_string()),
                StringPart::Interpolation(id("name")),
                StringPart::Literal("! {ok}".to_string()),
            ],
            span: sp(),
        },
        span: sp(),
    };
    assert_eq!(expr_text(&interp), "format!(\"Hello, {}! {{ok}}\", name)");
    let plain = Expr::StringInterp {
        template: StringTemplate { parts: vec![StringPart::Literal("just text".to_string())], span: sp() },
        span: sp(),
    };
    assert_eq!(expr_text(&plain), "\"just text\".to_string()");
    let infer = Expr::Infer {
        template: StringTemplate { parts: vec![StringPart::Literal("Summarise".to_string())], span: sp() },
        result_ty: None,
        span: sp(),
    };
    assert_eq!(expr_text(&infer), "ctx.infer_string(&\"Summarise\".to_string()).await");
}

#[test]
fn control_flow_statements() {
    let mut g = Generator::new();
    let s = Stmt::If {
        condition: bin(BinOp::Gt, var("x"), int_lit(5)),
        then_block: block(vec![Stmt::Expr { expr: Expr::Emit { value: Box::new(int_lit(1)), span: sp() }, span: sp() }]),
        else_block: Some(ElseBranch::Block(block(vec![Stmt::Break { span: sp() }]))),
        span: sp(),
    };
    g.generate_stmt(&s);
    assert_eq!(
        g.finish(),
        "if x > 5_i64 {\n    return ctx.emit(1_i64);\n} else {\n    break;\n}\n"
    );
}

#[test]
fn loops_and_reassigned_lets() {
    let body = block(vec![
        Stmt::Let { name: id("n"), ty: None, value: int_lit(0), span: sp() },
        Stmt::For {
            pattern: Pattern::Binding { name: id("x"), span: sp() },
            iter: Expr::List { elements: vec![int_lit(1), int_lit(2), int_lit(3)], span: sp() },
            body: block(vec![Stmt::Expr { expr: call("show", vec![var("x")]), span: sp() }]),
            span: sp(),
        },
        Stmt::While {
            condition: bin(BinOp::Lt, var("n"), int_lit(5)),
            body: block(vec![Stmt::Assign { name: id("n"), value: bin(BinOp::Add, var("n"), int_lit(1)), span: sp() }]),
            span: sp(),
        },
        Stmt::Let { name: id("k"), ty: Some(TypeExpr::Int), value: var("n"), span: sp() },
        Stmt::Return { value: Some(var("k")), span: sp() },
    ]);
    let f = FnDecl {
        is_pub: true,
        name: id("count"),
        params: vec![Param { name: id("limit"), ty: TypeExpr::Int, span: sp() }],
        return_ty: TypeExpr::Int,
        is_fallible: false,
        body,
        span: sp(),
    };
    let mut g = Generator::new();
    g.generate_function(&f);
    assert_eq!(
        g.finish(),
        "pub fn count(limit: i64) -> i64 {\n    let mut n = 0_i64;\n    for x in vec![1_i64, 2_i64, 3_i64] {\n        show((x).clone());\n    }\n    while n < 5_i64 {\n        n = n + 1_i64;\n    }\n    let k: i64 = n;\n    return k;\n}\n"
    );
}

#[test]
fn fallible_function_signature() {
    let f = FnDecl {
        is_pub: false,
        name: id("get_data"),
        params: vec![Param { name: id("url"), ty: TypeExpr::String, span: sp() }],
        return_ty: TypeExpr::String,
        is_fallible: true,
        body: block(vec![Stmt::Return { value: Some(var("url")), span: sp() }]),
        span: sp(),
    };
    let mut g = Generator::new();
    g.generate_function(&f);
    let out = g.finish();
    assert!(out.starts_with("fn get_data(url: String) -> SageResult<String> {\n"));
    assert!(out.contains("    return url;\n"));
}

#[test]
fn else_if_chains_and_tuples() {
    let s = Stmt::If {
        condition: var("a"),
        then_block: block(vec![Stmt::LetTuple { names: vec![id("p"), id("q")], ty: None, value: var("pair"), span: sp() }]),
        else_block: Some(ElseBranch::ElseIf(Box::new(Stmt::If {
            condition: var("b"),
            then_block: block(vec![]),
            else_block: None,
            span: sp(),
        }))),
        span: sp(),
    };
    let mut g = Generator::new();
    g.generate_stmt(&s);
    assert_eq!(g.finish(), "if a {\n    let (p, q) = pair;\n} else if b {\n}\n");
    let mut h = Generator::new();
    h.generate_stmt(&Stmt::Loop { body: block(vec![Stmt::Break { span: sp() }]), span: sp() });
    assert_eq!(h.finish(), "loop {\n    break;\n}\n");
}

#[test]
fn constants_and_string_constant_references() {
    let mut g = Generator::new();
    g.generate_const(&ConstDecl { is_pub: false, name: id("MAX_SIZE"), ty: TypeExpr::Int, value: int_lit(100), span: sp() });
    g.generate_const(&ConstDecl { is_pub: true, name: id("GREETING"), ty: TypeExpr::String, value: text("Hello"), span: sp() });
    g.generate_stmt(&Stmt::Let { name: id("g"), ty: None, value: var("GREETING"), span: sp() });
    assert_eq!(
        g.finish(),
        "const MAX_SIZE: i64 = 100_i64;\npub const GREETING: &'static str = \"Hello\";\nlet g = GREETING.to_string();\n"
    );
}

#[test]
fn patterns_text() {
    let mut g = Generator::new();
    g.emit_pattern(&Pattern::Variant {
        enum_name: Some(id("Shape")),
        variant: id("Pair"),
        payload: Some(Box::new(Pattern::Tuple {
            elements: vec![Pattern::Binding { name: id("a"), span: sp() }, Pattern::Wildcard { span: sp() }],
            span: sp(),
        })),
        span: sp(),
    });
    assert_eq!(g.finish(), "Shape::Pair((a, _))");
}

fn unit_variant(n: &str) -> Pattern {
    Pattern::Variant { enum_name: None, variant: id(n), payload: None, span: sp() }
}

#[test]
fn match_expression_arms() {
    let m = Expr::Match {
        scrutinee: Box::new(var("s")),
        arms: vec![
            sage_checker::ast::MatchArm { pattern: unit_variant("Active"), body: int_lit(1), span: sp() },
            sage_checker::ast::MatchArm { pattern: Pattern::Wildcard { span: sp() }, body: int_lit(0), span: sp() },
        ],
        span: sp(),
    };
    assert_eq!(expr_text(&m), "match s {\n    Active => 1_i64,\n    _ => 0_i64,\n}");
}

#[test]
fn catch_expression_inside_a_function() {
    let caught = Expr::Catch {
        expr: Box::new(Expr::Try { expr: Box::new(call("fallible", vec![])), span: sp() }),
        error_bind: Some(id("e")),
        recovery: Box::new(int_lit(0)),
        span: sp(),
    };
    let f = FnDecl {
        is_pub: false,
        name: id("safe"),
        params: vec![],
        return_ty: TypeExpr::Int,
        is_fallible: false,
        body: block(vec![Stmt::Return { value: Some(caught), span: sp() }]),
        span: sp(),
    };
    let mut g = Generator::new();
    g.generate_function(&f);
    assert_eq!(
        g.finish(),
        "fn safe() -> i64 {\n    return match fallible() {\n        Ok(__val) => __val,\n        Err(e) => 0_i64,\n    };\n}\n"
    );
    let unbound = Expr::Catch { expr: Box::new(var("r")), error_bind: None, recovery: Box::new(int_lit(1)), span: sp() };
    assert_eq!(expr_text(&unbound), "match r {\n    Ok(__val) => __val,\n    Err(_) => 1_i64,\n}");
}

#[test]
fn builtin_calls_use_their_rust_counterparts() {
    assert_eq!(expr_text(&call("print", vec![var("msg")])), "println!(\"{}\", msg)");
    assert_eq!(expr_text(&call("len", vec![var("xs")])), "xs.len() as i64");
    assert_eq!(
        expr_text(&call("split", vec![var("s"), text(",")])),
        "s.split(&*\",\".to_string()).map(str::to_string).collect::<Vec<_>>()"
    );
    assert_eq!(
        expr_text(&call("replace", vec![var("s"), text("a"), text("b")])),
        "s.replace(&*\"a\".to_string(), &*\"b\".to_string())"
    );
    assert_eq!(expr_text(&call("now_ms", vec![])), "sage_runtime::stdlib::now_ms()");
    assert_eq!(expr_text(&call("unwrap_or", vec![var("o"), int_lit(0)])), "o.unwrap_or(0_i64)");
    assert_eq!(
        expr_text(&call("json_stringify", vec![var("v")])),
        "sage_runtime::stdlib::json_stringify_string(&v.to_string())"
    );
    assert_eq!(
        expr_text(&call("print", vec![call("str", vec![call("len", vec![var("xs")])])])),
        "println!(\"{}\", xs.len() as i64.to_string())"
    );
}

#[test]
fn test_assertions_become_rust_assertions() {
    let mut g = Generator::new();
    g.generate_stmt(&Stmt::Expr { expr: call("assert_eq", vec![var("a"), int_lit(2)]), span: sp() });
    g.generate_stmt(&Stmt::Expr { expr: call("assert_not_empty", vec![var("xs")]), span: sp() });
    g.generate_stmt(&Stmt::Expr { expr: call("assert_gt", vec![var("a")]), span: sp() });
    g.generate_stmt(&Stmt::Expr { expr: call("assert_contains", vec![var("s"), text("x")]), span: sp() });
    g.generate_stmt(&Stmt::Expr { expr: call("assert_fails", vec![call("risky", vec![])]), span: sp() });
    assert_eq!(
        g.finish(),
        "assert_eq!(a, 2_i64);\nassert!(!xs.is_empty());\nassert!();\nassert!(s.contains(&\"x\".to_string()));\n{\n    let result = risky();\n    assert!(result.is_err(), \"Expected operation to fail but it succeeded\");\n}\n"
    );
}

#[test]
fn builtins_written_as_blocks() {
    assert_eq!(
        expr_text(&call("push", vec![var("xs"), int_lit(4)])),
        "{ let mut __v = xs; __v.push(4_i64); __v }"
    );
    assert_eq!(
        expr_text(&call("pow", vec![var("b"), var("e")])),
        "{ let __base = b; let __exp = e; if __exp < 0 { 0 } else { __base.pow(__exp as u32) } }"
    );
    assert_eq!(
        expr_text(&call("sort_by", vec![var("xs"), var("f")])),
        "{ let mut __v = xs; __v.sort_by(|__a, __b| { let __cmp = (f)((__a).clone(), (__b).clone()); if __cmp < 0 { std::cmp::Ordering::Less } else if __cmp > 0 { std::cmp::Ordering::Greater } else { std::cmp::Ordering::Equal } }); __v }"
    );
}
