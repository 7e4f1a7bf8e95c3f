use sage_checker::ast::{
    AgentDecl, BeliefDecl, BinOp, Block, EventKind, Expr, FieldInit, FnDecl, HandlerDecl, Ident, Literal, Param,
    Program, Span, Stmt, TypeExpr, UseDecl, UseKind,
};
use sage_checker::error::CheckError;
use sage_checker::modules::{check_module_tree, ModuleCheckResult, ModuleTree, ParsedModule};
use sage_checker::types::Type;

fn sp() -> Span {
    Span { start: 0, end: 0 }
}

fn id(n: &str) -> Ident {
    Ident { name: n.to_string(), span: sp() }
}

fn path(segments: &[&str]) -> Vec<String> {
    segments.iter().map(|s| s.to_string()).collect()
}

fn int_lit(v: i64) -> Expr {
    Expr::Literal { value: Literal::Int(v), span: sp() }
}

fn string(s: &str) -> Expr {
    Expr::Literal { value: Literal::String(s.to_string()), span: sp() }
}

fn var(n: &str) -> Expr {
    Expr::Var { name: id(n), span: sp() }
}

fn call(n: &str, args: Vec<Expr>) -> Expr {
    Expr::Call { name: id(n), args, span: sp() }
}

fn emit(e: Expr) -> Stmt {
    Stmt::Expr { expr: Expr::Emit { value: Box::new(e), span: sp() }, span: sp() }
}

fn let_(n: &str, e: Expr) -> Stmt {
    Stmt::Let { name: id(n), ty: None, value: e, span: sp() }
}

fn expr_stmt(e: Expr) -> Stmt {
    Stmt::Expr { expr: e, span: sp() }
}

fn block(stmts: Vec<Stmt>) -> Block {
    Block { stmts, span: sp() }
}

fn on_start(stmts: Vec<Stmt>) -> HandlerDecl {
    HandlerDecl { event: EventKind::Start, body: block(stmts), span: sp() }
}

fn on_error(param: &str, stmts: Vec<Stmt>) -> HandlerDecl {
    HandlerDecl { event: EventKind::Error { param_name: id(param) }, body: block(stmts), span: sp() }
}

fn agent(is_pub: bool, name: &str, beliefs: Vec<(&str, TypeExpr)>, handlers: Vec<HandlerDecl>) -> AgentDecl {
    AgentDecl {
        is_pub,
        name: id(name),
        receives: None,
        beliefs: beliefs
            .into_iter()
            .map(|(n, ty)| BeliefDecl { is_persistent: false, name: id(n), ty, span: sp() })
            .collect(),
        handlers,
        span: sp(),
    }
}

fn func(is_pub: bool, name: &str, params: Vec<(&str, TypeExpr)>, ret_ty: TypeExpr, body: Vec<Stmt>) -> FnDecl {
    FnDecl {
        is_pub,
        name: id(name),
        params: params
            .into_iter()
            .map(|(n, ty)| Param { name: id(n), ty, span: sp() })
            .collect(),
        return_ty: ret_ty,
        is_fallible: false,
        body: block(body),
        span: sp(),
    }
}

fn use_simple(segments: &[&str], alias: Option<&str>) -> UseDecl {
    UseDecl {
        is_pub: false,
        path: segments.iter().map(|s| id(s)).collect(),
        kind: UseKind::Simple(alias.map(id)),
        span: sp(),
    }
}

fn use_group(segments: &[&str], items: Vec<(&str, Option<&str>)>) -> UseDecl {
    UseDecl {
        is_pub: false,
        path: segments.iter().map(|s| id(s)).collect(),
        kind: UseKind::Group(items.into_iter().map(|(i, a)| (id(i), a.map(id))).collect()),
        span: sp(),
    }
}

fn use_glob(segments: &[&str]) -> UseDecl {
    UseDecl { is_pub: false, path: segments.iter().map(|s| id(s)).collect(), kind: UseKind::Glob, span: sp() }
}

fn program(use_decls: Vec<UseDecl>, agents: Vec<AgentDecl>, functions: Vec<FnDecl>, run: Option<&str>) -> Program {
    Program {
        use_decls,
        agents,
        functions,
        records: vec![],
        enums: vec![],
        consts: vec![],
        run_agent: run.map(id),
    }
}

fn tree(modules: Vec<(Vec<String>, Program)>) -> ModuleTree {
    let mut t = ModuleTree::new(vec![]);
    for (p, program) in modules {
        t.insert(ParsedModule { path: p, program });
    }
    t
}

/// `pub agent Worker { task: String  on start { emit(self.task ++ " completed"); } }`
fn worker(is_pub: bool) -> AgentDecl {
    agent(
        is_pub,
        "Worker",
        vec![("task", TypeExpr::String)],
        vec![on_start(vec![emit(Expr::Binary {
            op: BinOp::Concat,
            left: Box::new(Expr::SelfField { field: id("task"), span: sp() }),
            right: Box::new(string(" completed")),
            span: sp(),
        })])],
    )
}

/// `agent Main { on start { body } }`
fn main_agent(body: Vec<Stmt>) -> AgentDecl {
    agent(false, "Main", vec![], vec![on_start(body)])
}

fn spawn_worker(local: &str) -> Expr {
    Expr::Spawn {
        agent: id(local),
        fields: vec![FieldInit { name: id("task"), value: string("Processing"), span: sp() }],
        span: sp(),
    }
}

fn errors(r: &ModuleCheckResult) -> &Vec<CheckError> {
    &r.errors
}

#[test]
fn check_module_tree_simple() {
    let t = tree(vec![(path(&[]), program(vec![], vec![main_agent(vec![emit(int_lit(42))])], vec![], Some("Main")))]);
    let result = check_module_tree(&t);
    assert!(result.errors.is_empty(), "errors: {:?}", result.errors);
}

#[test]
fn module_tree_readme_project() {
    let agents = program(vec![], vec![worker(true)], vec![], None);
    let main = program(
        vec![use_simple(&["agents", "Worker"], None)],
        vec![agent(
            false,
            "Main",
            vec![],
            vec![
                on_start(vec![
                    let_("w", spawn_worker("Worker")),
                    let_("result", Expr::Try { expr: Box::new(Expr::Await { handle: Box::new(var("w")), span: sp() }), span: sp() }),
                    expr_stmt(call("print", vec![var("result")])),
                    emit(int_lit(0)),
                ]),
                on_error("e", vec![emit(int_lit(1))]),
            ],
        )],
        vec![],
        Some("Main"),
    );
    let t = tree(vec![(path(&["agents"]), agents), (path(&[]), main)]);
    let result = check_module_tree(&t);
    assert!(errors(&result).is_empty(), "errors: {:?}", result.errors);
    let w = result.symbols.get_agent("Worker").expect("Worker is declared");
    assert_eq!(w.emit_type, Some(Type::String));
    assert_eq!(w.module, path(&["agents"]));
    let m = result.symbols.get_agent("Main").expect("Main is declared");
    assert_eq!(m.emit_type, Some(Type::Int));
}

#[test]
fn module_tree_aliased_import() {
    let agents = program(vec![], vec![worker(true)], vec![], None);
    let main = program(
        vec![use_simple(&["agents", "Worker"], Some("W"))],
        vec![agent(
            false,
            "Main",
            vec![],
            vec![
                on_start(vec![
                    let_("w", spawn_worker("W")),
                    let_("r", Expr::Try { expr: Box::new(Expr::Await { handle: Box::new(var("w")), span: sp() }), span: sp() }),
                    emit(var("r")),
                ]),
                on_error("e", vec![emit(string("failed"))]),
            ],
        )],
        vec![],
        Some("Main"),
    );
    let t = tree(vec![(path(&["agents"]), agents), (path(&[]), main)]);
    let result = check_module_tree(&t);
    assert!(result.errors.is_empty(), "errors: {:?}", result.errors);
    // The awaited type is what Worker emits: Main emits a String.
    let m = result.symbols.get_agent("Main").expect("Main is declared");
    assert_eq!(m.emit_type, Some(Type::String));
}

#[test]
fn module_tree_private_item() {
    let agents = program(vec![], vec![worker(false)], vec![], None);
    let main = program(vec![use_simple(&["agents", "Worker"], None)], vec![main_agent(vec![emit(int_lit(0))])], vec![], Some("Main"));
    let t = tree(vec![(path(&["agents"]), agents), (path(&[]), main)]);
    let result = check_module_tree(&t);
    assert_eq!(result.errors.len(), 1, "errors: {:?}", result.errors);
    match &result.errors[0] {
        CheckError::PrivateItem { name, module, .. } => {
            assert_eq!(name, "Worker");
            assert_eq!(module, "agents");
        },
        e => panic!("unexpected error: {e:?}"),
    }
}

#[test]
fn module_tree_item_not_found() {
    let agents = program(vec![], vec![worker(true)], vec![], None);
    let main = program(vec![use_simple(&["agents", "Ghost"], None)], vec![main_agent(vec![emit(int_lit(0))])], vec![], Some("Main"));
    let t = tree(vec![(path(&["agents"]), agents), (path(&[]), main)]);
    let result = check_module_tree(&t);
    assert_eq!(result.errors.len(), 1, "errors: {:?}", result.errors);
    match &result.errors[0] {
        CheckError::ItemNotFound { name, module, .. } => {
            assert_eq!(name, "Ghost");
            assert_eq!(module, "agents");
        },
        e => panic!("unexpected error: {e:?}"),
    }
}

#[test]
fn module_tree_glob_of_missing_module() {
    let main = program(vec![use_glob(&["nowhere", "deep"])], vec![main_agent(vec![emit(int_lit(0))])], vec![], Some("Main"));
    let t = tree(vec![(path(&[]), main)]);
    let result = check_module_tree(&t);
    assert_eq!(result.errors.len(), 1, "errors: {:?}", result.errors);
    match &result.errors[0] {
        CheckError::ModuleNotFound { path, .. } => assert_eq!(path, "nowhere::deep"),
        e => panic!("unexpected error: {e:?}"),
    }
}

fn util_module() -> Program {
    let double = func(
        true,
        "double",
        vec![("x", TypeExpr::Int)],
        TypeExpr::Int,
        vec![Stmt::Return { value: Some(Expr::Binary { op: BinOp::Mul, left: Box::new(var("x")), right: Box::new(int_lit(2)), span: sp() }), span: sp() }],
    );
    let secret = func(false, "secret", vec![], TypeExpr::Int, vec![Stmt::Return { value: Some(int_lit(7)), span: sp() }]);
    program(vec![], vec![], vec![double, secret], None)
}

#[test]
fn module_tree_glob_imports_public_items_only() {
    let main = program(
        vec![use_glob(&["util"])],
        vec![main_agent(vec![let_("a", call("double", vec![int_lit(21)])), let_("b", call("secret", vec![])), emit(var("a"))])],
        vec![],
        Some("Main"),
    );
    let t = tree(vec![(path(&["util"]), util_module()), (path(&[]), main)]);
    let result = check_module_tree(&t);
    assert_eq!(result.errors.len(), 1, "errors: {:?}", result.errors);
    match &result.errors[0] {
        CheckError::UndefinedFunction { name, .. } => assert_eq!(name, "secret"),
        e => panic!("unexpected error: {e:?}"),
    }
}

#[test]
fn module_tree_group_import_with_alias() {
    let main = program(
        vec![use_group(&["util"], vec![("double", Some("twice"))])],
        vec![main_agent(vec![let_("a", call("twice", vec![int_lit(21)])), emit(var("a"))])],
        vec![],
        Some("Main"),
    );
    let t = tree(vec![(path(&["util"]), util_module()), (path(&[]), main)]);
    let result = check_module_tree(&t);
    assert!(result.errors.is_empty(), "errors: {:?}", result.errors);
}

#[test]
fn module_tree_wrong_arg_count_names_the_declaration() {
    let main = program(
        vec![use_group(&["util"], vec![("double", Some("twice"))])],
        vec![main_agent(vec![let_("a", call("twice", vec![int_lit(1), int_lit(2)])), emit(int_lit(0))])],
        vec![],
        Some("Main"),
    );
    let t = tree(vec![(path(&["util"]), util_module()), (path(&[]), main)]);
    let result = check_module_tree(&t);
    assert_eq!(result.errors.len(), 1, "errors: {:?}", result.errors);
    match &result.errors[0] {
        CheckError::WrongArgCount { name, expected, found, .. } => {
            assert_eq!(name, "double");
            assert_eq!(*expected, 1);
            assert_eq!(*found, 2);
        },
        e => panic!("unexpected error: {e:?}"),
    }
}

#[test]
fn module_tree_unimported_item_is_undefined() {
    let main = program(vec![], vec![main_agent(vec![let_("a", call("double", vec![int_lit(1)])), emit(int_lit(0))])], vec![], Some("Main"));
    let t = tree(vec![(path(&["util"]), util_module()), (path(&[]), main)]);
    let result = check_module_tree(&t);
    assert_eq!(result.errors.len(), 1, "errors: {:?}", result.errors);
    assert!(matches!(&result.errors[0], CheckError::UndefinedFunction { name, .. } if name == "double"));
}

#[test]
fn module_tree_duplicate_in_root() {
    let main = program(
        vec![],
        vec![main_agent(vec![emit(int_lit(0))]), main_agent(vec![emit(int_lit(1))])],
        vec![],
        Some("Main"),
    );
    let t = tree(vec![(path(&[]), main)]);
    let result = check_module_tree(&t);
    assert_eq!(result.errors.len(), 1, "errors: {:?}", result.errors);
    assert!(matches!(&result.errors[0], CheckError::DuplicateDefinition { name, .. } if name == "Main"));
}

#[test]
fn module_tree_entry_must_be_root_agent() {
    let agents = program(vec![], vec![worker(true)], vec![], None);
    let main = program(vec![use_simple(&["agents", "Worker"], None)], vec![], vec![], Some("Worker"));
    let t = tree(vec![(path(&["agents"]), agents), (path(&[]), main)]);
    let result = check_module_tree(&t);
    assert_eq!(result.errors.len(), 1, "errors: {:?}", result.errors);
    assert!(matches!(&result.errors[0], CheckError::UndefinedAgent { name, .. } if name == "Worker"));
}

#[test]
fn module_tree_entry_agent_checks() {
    let main = program(vec![], vec![agent(false, "Main", vec![("x", TypeExpr::Int)], vec![])], vec![], Some("Main"));
    let t = tree(vec![(path(&[]), main)]);
    let result = check_module_tree(&t);
    // The unused belief, then the entry agent's belief and missing start handler.
    assert_eq!(result.errors.len(), 3, "errors: {:?}", result.errors);
    assert!(matches!(&result.errors[0], CheckError::UnusedBelief { .. }));
    assert!(matches!(&result.errors[1], CheckError::EntryAgentHasBeliefs { .. }));
    assert!(matches!(&result.errors[2], CheckError::EntryAgentNoStart { .. }));
}

#[test]
fn module_tree_insert_replaces_same_path() {
    let mut t = ModuleTree::new(vec![]);
    t.insert(ParsedModule { path: path(&[]), program: program(vec![], vec![], vec![], Some("Main")) });
    t.insert(ParsedModule { path: path(&[]), program: program(vec![], vec![main_agent(vec![emit(int_lit(0))])], vec![], Some("Main")) });
    let result = check_module_tree(&t);
    assert!(result.errors.is_empty(), "errors: {:?}", result.errors);
}

#[test]
fn module_tree_infer_outside_try_passes() {
    let infer = Expr::Infer {
        template: sage_checker::ast::StringTemplate {
            parts: vec![sage_checker::ast::StringPart::Literal("hello".to_string())],
            span: sp(),
        },
        result_ty: None,
        span: sp(),
    };
    let main = program(vec![], vec![main_agent(vec![let_("s", infer), emit(int_lit(0))])], vec![], Some("Main"));
    let t = tree(vec![(path(&[]), main)]);
    let result = check_module_tree(&t);
    assert!(result.errors.is_empty(), "errors: {:?}", result.errors);
}

#[test]
fn module_tree_await_outside_try_is_reported() {
    let agents = program(vec![], vec![worker(true)], vec![], None);
    let main = program(
        vec![use_simple(&["agents", "Worker"], None)],
        vec![main_agent(vec![
            let_("w", spawn_worker("Worker")),
            let_("r", Expr::Await { handle: Box::new(var("w")), span: sp() }),
            emit(int_lit(0)),
        ])],
        vec![],
        Some("Main"),
    );
    let t = tree(vec![(path(&["agents"]), agents), (path(&[]), main)]);
    let result = check_module_tree(&t);
    assert_eq!(result.errors.len(), 1, "errors: {:?}", result.errors);
    assert!(matches!(&result.errors[0], CheckError::UnhandledError { name, .. } if name == "await"));
}
