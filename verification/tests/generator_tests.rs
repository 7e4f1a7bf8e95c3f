use sage_checker::ast::{BinOp, EnumDecl, EnumVariant, Ident, RecordDecl, RecordField, Span, TypeExpr, UnaryOp};
use sage_checker::ast::{Expr, Literal};
use sage_checker::codegen::PersistenceBackend;
use sage_checker::generator::{
    escape_string_for_rust, extract_message_type_name, infer_expr_type, infer_expr_type_name, is_assertion_builtin,
    type_expr_to_string, type_name_for_state, Generator,
};

fn sp() -> Span {
    Span { start: 0, end: 0 }
}

fn id(n: &str) -> Ident {
    Ident { name: n.to_string(), span: sp() }
}

fn rust_type(t: &TypeExpr) -> String {
    let mut g = Generator::new();
    g.emit_type(t);
    g.finish()
}

#[test]
fn emit_type_primitives() {
    assert_eq!(rust_type(&TypeExpr::Int), "i64");
    assert_eq!(rust_type(&TypeExpr::Float), "f64");
    assert_eq!(rust_type(&TypeExpr::Bool), "bool");
    assert_eq!(rust_type(&TypeExpr::String), "String");
    assert_eq!(rust_type(&TypeExpr::Unit), "()");
    assert_eq!(rust_type(&TypeExpr::Error), "sage_runtime::SageError");
}

#[test]
fn emit_type_compound() {
    let t = TypeExpr::Dict(
        Box::new(TypeExpr::String),
        Box::new(TypeExpr::List(Box::new(TypeExpr::Option(Box::new(TypeExpr::Int))))),
    );
    assert_eq!(rust_type(&t), "std::collections::HashMap<String, Vec<Option<i64>>>");
    assert_eq!(rust_type(&TypeExpr::Oracle(Box::new(TypeExpr::Bool))), "bool");
    assert_eq!(rust_type(&TypeExpr::Agent(id("Worker"))), "AgentHandle<WorkerOutput>");
    assert_eq!(rust_type(&TypeExpr::Tuple(vec![TypeExpr::Int, TypeExpr::String, TypeExpr::Bool])), "(i64, String, bool)");
    assert_eq!(
        rust_type(&TypeExpr::Fn(vec![TypeExpr::Int, TypeExpr::Int], Box::new(TypeExpr::Bool))),
        "Box<dyn Fn(i64, i64) -> bool + Send + 'static>"
    );
    assert_eq!(rust_type(&TypeExpr::Result(Box::new(TypeExpr::Int), Box::new(TypeExpr::String))), "Result<i64, String>");
    assert_eq!(rust_type(&TypeExpr::Named(id("Pair"), vec![TypeExpr::Int, TypeExpr::String])), "Pair<i64, String>");
    assert_eq!(rust_type(&TypeExpr::Named(id("Point"), vec![])), "Point");
}

#[test]
fn emit_operators() {
    let mut g = Generator::new();
    g.emit_binop(&BinOp::Le);
    g.write(" ");
    g.emit_binop(&BinOp::And);
    g.write(" ");
    g.emit_unaryop(&UnaryOp::Not);
    g.emit_unaryop(&UnaryOp::Neg);
    assert_eq!(g.finish(), "<= && !-");
}

#[test]
fn type_names() {
    let t = TypeExpr::Result(
        Box::new(TypeExpr::Tuple(vec![TypeExpr::Int, TypeExpr::List(Box::new(TypeExpr::String))])),
        Box::new(TypeExpr::Dict(Box::new(TypeExpr::String), Box::new(TypeExpr::Bool))),
    );
    assert_eq!(type_expr_to_string(&t), "ResultTupleIntListStringOrMapStringToBool");
    assert_eq!(type_name_for_state(&t), "Result");
    assert_eq!(type_name_for_state(&TypeExpr::Named(id("Ping"), vec![])), "Ping");
    assert_eq!(type_expr_to_string(&TypeExpr::Oracle(Box::new(TypeExpr::Int))), "Int");
}

#[test]
fn escape_for_rust() {
    assert_eq!(escape_string_for_rust("plain"), "plain");
    assert_eq!(escape_string_for_rust("a\"b\\c\nd\re\tf"), "a\\\"b\\\\c\\nd\\re\\tf");
    assert_eq!(escape_string_for_rust("\u{1}\u{7f}\u{9f}é"), "\\x01\\x7f\\x9fé");
}

#[test]
fn generate_record_struct() {
    let record = RecordDecl {
        is_pub: false,
        name: id("Point"),
        fields: vec![
            RecordField { name: id("x"), ty: TypeExpr::Int, span: sp() },
            RecordField { name: id("y"), ty: TypeExpr::Int, span: sp() },
        ],
        span: sp(),
    };
    let mut g = Generator::new();
    g.generate_record(&record);
    let out = g.finish();
    assert!(out.contains("#[derive(Debug, Clone, serde::Serialize, serde::Deserialize)]"));
    assert!(out.contains("struct Point {"));
    assert!(out.contains("x: i64,"));
    assert!(out.contains("y: i64,"));
    assert_eq!(
        out,
        "#[derive(Debug, Clone, serde::Serialize, serde::Deserialize)]\nstruct Point {\n    x: i64,\n    y: i64,\n}\n"
    );
}

#[test]
fn generate_enum_type() {
    let decl = EnumDecl {
        is_pub: true,
        name: id("Status"),
        variants: vec![
            EnumVariant { name: id("Active"), payload: None, span: sp() },
            EnumVariant { name: id("Inactive"), payload: None, span: sp() },
            EnumVariant { name: id("Pending"), payload: Some(TypeExpr::String), span: sp() },
        ],
        span: sp(),
    };
    let mut g = Generator::new();
    g.generate_enum(&decl);
    let out = g.finish();
    assert!(out.contains("#[derive(Debug, Clone, Copy, PartialEq, Eq)]"));
    assert!(out.contains("enum Status {"));
    assert!(out.contains("Active,"));
    assert!(out.contains("Inactive,"));
    assert!(out.contains("Pending(String),"));
    assert!(out.starts_with("pub #[derive"));
}

#[test]
fn checkpoint_store_init() {
    let mut g = Generator::new();
    g.emit_checkpoint_store_init(&PersistenceBackend::Memory);
    assert_eq!(g.finish(), "sage_runtime::persistence::MemoryCheckpointStore::new()\n");
    let mut g = Generator::new();
    g.emit_checkpoint_store_init(&PersistenceBackend::Sqlite { path: ".sage/data.db".to_string() });
    let out = g.finish();
    assert!(out.contains("SyncSqliteStore::open(\".sage/data.db\")"), "{out}");
    let mut g = Generator::new();
    g.emit_checkpoint_store_init(&PersistenceBackend::Postgres { url: "postgres://localhost/mydb".to_string() });
    assert!(g.finish().contains("SyncPostgresStore::connect(\"postgres://localhost/mydb\")"));
    let mut g = Generator::new();
    g.emit_checkpoint_store_init(&PersistenceBackend::File { path: "./state".to_string() });
    assert!(g.finish().contains("SyncFileStore::open(\"./state\")"));
}

#[test]
fn message_and_expression_types() {
    let rec = Expr::RecordConstruct { name: id("Ping"), fields: vec![], span: sp() };
    let paren = Expr::Paren { inner: Box::new(rec), span: sp() };
    assert_eq!(extract_message_type_name(&paren), Some("Ping".to_string()));
    let lit = Expr::Literal { value: Literal::Int(1), span: sp() };
    assert_eq!(extract_message_type_name(&lit), None);
    assert_eq!(infer_expr_type_name(&lit), "Message");
    assert_eq!(infer_expr_type_name(&Expr::Var { name: id("m"), span: sp() }), "m");
    assert_eq!(infer_expr_type(&lit), "i64");
    let cmp = Expr::Binary {
        op: BinOp::Lt,
        left: Box::new(Expr::Literal { value: Literal::Int(1), span: sp() }),
        right: Box::new(Expr::Literal { value: Literal::Int(2), span: sp() }),
        span: sp(),
    };
    assert_eq!(infer_expr_type(&cmp), "bool");
    let s = Expr::Call { name: id("str"), args: vec![], span: sp() };
    assert_eq!(infer_expr_type(&s), "String");
    assert!(is_assertion_builtin("assert_eq"));
    assert!(!is_assertion_builtin("print"));
}
