use sage_checker::ast::{
    AgentDecl, BeliefDecl, Block, EventKind, Expr, HandlerDecl, Ident, Literal, Program, Span, Stmt, TypeExpr,
};
use sage_checker::codegen::{
    generate_cargo_toml, generate_cargo_toml_with_persistence, generate_test_cargo_toml, CodegenConfig,
    ObservabilityConfig, PersistenceBackend, RuntimeDep, SupervisionConfig, RUNTIME_VERSION,
};
use sage_checker::generator::has_persistent_fields;
use sage_checker::project::{
    dependency_ref, get_display_name, is_valid_project_name, new_project_files, parse_lib_name,
    GITIGNORE, MAIN_SG,
};

/// `agent Counter { @persistent count: Int  on start { yield(0); } } run Counter;`
fn counter_program() -> Program {
    let sp = Span { start: 0, end: 0 };
    let id = |n: &str| Ident { name: n.to_string(), span: sp };
    Program {
        use_decls: vec![],
        agents: vec![AgentDecl {
            is_pub: false,
            name: id("Counter"),
            receives: None,
            beliefs: vec![BeliefDecl { is_persistent: true, name: id("count"), ty: TypeExpr::Int, span: sp }],
            handlers: vec![HandlerDecl {
                event: EventKind::Start,
                body: Block {
                    stmts: vec![Stmt::Expr {
                        expr: Expr::Emit {
                            value: Box::new(Expr::Literal { value: Literal::Int(0), span: sp }),
                            span: sp,
                        },
                        span: sp,
                    }],
                    span: sp,
                },
                span: sp,
            }],
            span: sp,
        }],
        functions: vec![],
        records: vec![],
        enums: vec![],
        consts: vec![],
        run_agent: Some(id("Counter")),
    }
}

fn config(persistence: PersistenceBackend) -> CodegenConfig {
    CodegenConfig {
        runtime_dep: RuntimeDep::CratesIo { version: "1.0.0".to_string() },
        persistence,
        supervision: SupervisionConfig { max_restarts: 3, within_seconds: 60 },
        observability: ObservabilityConfig::default(),
    }
}

#[test]
fn generate_cargo_toml_with_sqlite_feature() {
    let cfg = config(PersistenceBackend::Sqlite { path: ".sage/data.db".to_string() });
    let toml = generate_cargo_toml(&counter_program(), "test", &cfg);
    assert!(toml.contains("persistence-sqlite"), "Cargo.toml should include persistence-sqlite feature");
}

#[test]
fn generate_cargo_toml_no_feature_for_memory() {
    let toml = generate_cargo_toml(&counter_program(), "test", &config(PersistenceBackend::Memory));
    assert!(
        !toml.contains("persistence-"),
        "Cargo.toml should NOT include any persistence feature for memory backend"
    );
}

#[test]
fn generate_cargo_toml_no_feature_without_persistent_beliefs() {
    let mut p = counter_program();
    p.agents[0].beliefs[0].is_persistent = false;
    let cfg = config(PersistenceBackend::Sqlite { path: ".sage/data.db".to_string() });
    let toml = generate_cargo_toml(&p, "test", &cfg);
    assert!(!toml.contains("persistence-"), "toml: {toml}");
    assert!(!has_persistent_fields(&p));
    assert!(has_persistent_fields(&counter_program()));
}

#[test]
fn cargo_dep_lines() {
    let crates = RuntimeDep::CratesIo { version: "1.2.3".to_string() };
    assert_eq!(crates.to_cargo_dep(None), "sage-runtime = \"1.2.3\"");
    assert_eq!(
        crates.to_cargo_dep(Some("persistence-file")),
        "sage-runtime = { version = \"1.2.3\", features = [\"persistence-file\"] }"
    );
    let path = RuntimeDep::Path { path: "../runtime".to_string() };
    assert_eq!(path.to_cargo_dep(None), "sage-runtime = { path = \"../runtime\" }");
    assert_eq!(
        path.to_cargo_dep(Some("persistence-sqlite")),
        "sage-runtime = { path = \"../runtime\", features = [\"persistence-sqlite\"] }"
    );
}

#[test]
fn runtime_dep_default_is_published_version() {
    match RuntimeDep::default() {
        RuntimeDep::CratesIo { version } => assert_eq!(version, RUNTIME_VERSION),
        RuntimeDep::Path { .. } => panic!("default should be crates.io"),
    }
}

#[test]
fn persistence_feature_flags() {
    assert_eq!(PersistenceBackend::Memory.feature_flag(), None);
    assert_eq!(
        PersistenceBackend::Sqlite { path: "x".to_string() }.feature_flag(),
        Some("persistence-sqlite")
    );
    assert_eq!(
        PersistenceBackend::Postgres { url: "x".to_string() }.feature_flag(),
        Some("persistence-postgres")
    );
    assert_eq!(
        PersistenceBackend::File { path: "x".to_string() }.feature_flag(),
        Some("persistence-file")
    );
    assert!(matches!(PersistenceBackend::default(), PersistenceBackend::Memory));
}

#[test]
fn observability_default_is_empty() {
    let c = ObservabilityConfig::default();
    assert_eq!(c.backend, "");
    assert_eq!(c.otlp_endpoint, None);
    assert_eq!(c.service_name, "");
}

#[test]
fn cargo_toml_exact_text() {
    let dep = RuntimeDep::CratesIo { version: "1.0.0".to_string() };
    let backend = PersistenceBackend::Postgres { url: "postgres://x".to_string() };
    let toml = generate_cargo_toml_with_persistence(&dep, &backend, "demo", true);
    let expected = "[package]\nname = \"demo\"\nversion = \"0.1.0\"\nedition = \"2021\"\n\n[dependencies]\nsage-runtime = { version = \"1.0.0\", features = [\"persistence-postgres\"] }\ntokio = { version = \"1\", features = [\"full\"] }\nserde = { version = \"1\", features = [\"derive\"] }\nserde_json = \"1\"\n\n# Standalone project, not part of parent workspace\n[workspace]\n";
    assert_eq!(toml, expected);
    let no_persist = generate_cargo_toml_with_persistence(&dep, &backend, "demo", false);
    assert!(no_persist.contains("sage-runtime = \"1.0.0\"\n"));
    let test_toml = generate_test_cargo_toml(&dep, "demo_test");
    assert!(test_toml.starts_with("[package]\nname = \"demo_test\"\n"));
    assert!(test_toml.contains("sage-runtime = \"1.0.0\"\n"));
}

#[test]
fn project_names() {
    assert!(is_valid_project_name("my_project"));
    assert!(is_valid_project_name("_private"));
    assert!(is_valid_project_name("app-2"));
    assert!(!is_valid_project_name(""));
    assert!(!is_valid_project_name("2fast"));
    assert!(!is_valid_project_name("-dash"));
    assert!(!is_valid_project_name("has space"));
    assert!(!is_valid_project_name("ünicode"));
}

#[test]
fn lib_names() {
    assert_eq!(parse_lib_name("libfoo_bar-abc123"), Some("foo_bar".to_string()));
    assert_eq!(parse_lib_name("libserde"), Some("serde".to_string()));
    assert_eq!(parse_lib_name("lib-x"), Some("".to_string()));
    assert_eq!(parse_lib_name("foo"), None);
    assert_eq!(parse_lib_name("li"), None);
}

#[test]
fn display_names() {
    assert_eq!(get_display_name(true, Some("proj")), "proj");
    assert_eq!(get_display_name(false, Some("main.sg")), "main.sg");
    assert_eq!(get_display_name(true, None), "project");
    assert_eq!(get_display_name(false, None), "unknown");
}

#[test]
fn new_project_layout() {
    let files = new_project_files("demo").expect("valid name");
    assert_eq!(files.len(), 4);
    assert_eq!(files[0].0, "sage.toml");
    assert_eq!(
        files[0].1,
        "[project]\nname = \"demo\"\nversion = \"0.1.0\"\nentry = \"src/main.sg\"\n"
    );
    assert_eq!(files[1].0, "src/main.sg");
    assert_eq!(files[1].1, MAIN_SG);
    assert_eq!(files[2].0, ".gitignore");
    assert_eq!(files[2].1, GITIGNORE);
    assert_eq!(files[3].0, "README.md");
    assert!(files[3].1.starts_with("# demo\n\nA Sage project.\n"));
    let err = new_project_files("9lives").unwrap_err();
    assert!(err.starts_with("Invalid project name '9lives'."));
}

#[test]
fn dependency_refs() {
    assert_eq!(
        dependency_ref(Some("v1".to_string()), None, None),
        Ok(("tag", "v1".to_string()))
    );
    assert_eq!(
        dependency_ref(None, Some("main".to_string()), None),
        Ok(("branch", "main".to_string()))
    );
    assert_eq!(
        dependency_ref(None, None, Some("abc".to_string())),
        Ok(("rev", "abc".to_string()))
    );
    assert_eq!(
        dependency_ref(None, None, None),
        Err("Specify exactly one of --tag, --branch, or --rev".to_string())
    );
    assert!(dependency_ref(Some("v1".to_string()), Some("main".to_string()), None).is_err());
}
