//! Code generation settings and the generated project's manifest.

use vstd::prelude::*;

verus! {

/// The version of the runtime crate that generated projects depend on.
pub const RUNTIME_VERSION: &'static str = "0.5.2";

/// How to specify the sage-runtime dependency in generated Cargo.toml.
#[derive(Debug)]
pub enum RuntimeDep {
    /// Use the published crates.io version.
    CratesIo { version: String },
    /// Use a local path (for development).
    Path { path: String },
}

impl Default for RuntimeDep {
    /// The published runtime of the version this generator targets.
    fn default() -> (r: Self)
        ensures
            r matches RuntimeDep::CratesIo { version } && version@ == RUNTIME_VERSION@,
    {
        RuntimeDep::CratesIo { version: String::from_str(RUNTIME_VERSION) }
    }
}

/// The Cargo.toml dependency line for the runtime, with an optional feature.
pub open spec fn cargo_dep_line(dep: RuntimeDep, feature: Option<Seq<char>>) -> Seq<char> {
    match dep {
        RuntimeDep::CratesIo { version } => match feature {
            Some(f) => "sage-runtime = { version = \""@ + version@ + "\", features = [\""@ + f
                + "\"] }"@,
            None => "sage-runtime = \""@ + version@ + "\""@,
        },
        RuntimeDep::Path { path } => match feature {
            Some(f) => "sage-runtime = { path = \""@ + path@ + "\", features = [\""@ + f + "\"] }"@,
            None => "sage-runtime = { path = \""@ + path@ + "\" }"@,
        },
    }
}

/// The model of an optional text.
pub open spec fn opt_text(s: Option<&str>) -> Option<Seq<char>> {
    match s {
        Some(x) => Some(x@),
        None => None,
    }
}

impl RuntimeDep {
    /// Generate the Cargo.toml dependency line.
    pub fn to_cargo_dep(&self, feature: Option<&str>) -> (r: String)
        ensures
            r@ == cargo_dep_line(*self, opt_text(feature)),
    {
        match self {
            RuntimeDep::CratesIo { version } => match feature {
                Some(feat) => {
                    let mut r = String::from_str("sage-runtime = { version = \"");
                    r.append(version.as_str());
                    r.append("\", features = [\"");
                    r.append(feat);
                    r.append("\"] }");
                    r
                },
                None => {
                    let mut r = String::from_str("sage-runtime = \"");
                    r.append(version.as_str());
                    r.append("\"");
                    r
                },
            },
            RuntimeDep::Path { path } => match feature {
                Some(feat) => {
                    let mut r = String::from_str("sage-runtime = { path = \"");
                    r.append(path.as_str());
                    r.append("\", features = [\"");
                    r.append(feat);
                    r.append("\"] }");
                    r
                },
                None => {
                    let mut r = String::from_str("sage-runtime = { path = \"");
                    r.append(path.as_str());
                    r.append("\" }");
                    r
                },
            },
        }
    }
}

/// Persistence backend configuration for `@persistent` fields.
#[derive(Debug)]
pub enum PersistenceBackend {
    /// In-memory storage (no persistence across restarts).
    Memory,
    /// SQLite database storage.
    Sqlite { path: String },
    /// PostgreSQL database storage.
    Postgres { url: String },
    /// File-based JSON storage.
    File { path: String },
}

impl Default for PersistenceBackend {
    /// In-memory storage.
    fn default() -> (r: Self)
        ensures
            r is Memory,
    {
        PersistenceBackend::Memory
    }
}

/// The runtime feature that a persistence backend needs, if any.
pub open spec fn backend_feature(b: PersistenceBackend) -> Option<Seq<char>> {
    match b {
        PersistenceBackend::Memory => None,
        PersistenceBackend::Sqlite { .. } => Some("persistence-sqlite"@),
        PersistenceBackend::Postgres { .. } => Some("persistence-postgres"@),
        PersistenceBackend::File { .. } => Some("persistence-file"@),
    }
}

impl PersistenceBackend {
    /// Get the feature flag name for this backend, if any.
    pub fn feature_flag(&self) -> (r: Option<&'static str>)
        ensures
            opt_text(r) == backend_feature(*self),
    {
        match self {
            PersistenceBackend::Memory => None,
            PersistenceBackend::Sqlite { .. } => Some("persistence-sqlite"),
            PersistenceBackend::Postgres { .. } => Some("persistence-postgres"),
            PersistenceBackend::File { .. } => Some("persistence-file"),
        }
    }
}

/// Observability configuration for tracing and metrics.
#[derive(Debug)]
pub struct ObservabilityConfig {
    /// Backend type: "ndjson", "otlp", or "none".
    pub backend: String,
    /// OTLP endpoint URL (for otlp backend).
    pub otlp_endpoint: Option<String>,
    /// Service name for trace attribution.
    pub service_name: String,
}

impl Default for ObservabilityConfig {
    /// Empty backend and service name, no endpoint.
    fn default() -> (r: Self)
        ensures
            r.backend@ == Seq::<char>::empty(),
            r.otlp_endpoint is None,
            r.service_name@ == Seq::<char>::empty(),
    {
        ObservabilityConfig { backend: String::new(), otlp_endpoint: None, service_name: String::new() }
    }
}

/// Generated Rust project files.
#[derive(Debug)]
pub struct GeneratedProject {
    /// The main.rs content.
    pub main_rs: String,
    /// The Cargo.toml content.
    pub cargo_toml: String,
}

/// Generated test project files.
#[derive(Debug)]
pub struct GeneratedTestProject {
    /// The test main.rs content.
    pub main_rs: String,
    /// The Cargo.toml content.
    pub cargo_toml: String,
}

/// The manifest of a generated project named `name` whose runtime
/// dependency line is `dep_line`.
pub open spec fn manifest_text(name: Seq<char>, dep_line: Seq<char>) -> Seq<char> {
    "[package]\nname = \""@ + name + "\"\nversion = \"0.1.0\"\nedition = \"2021\"\n\n[dependencies]\n"@
        + dep_line
        + "\ntokio = { version = \"1\", features = [\"full\"] }\nserde = { version = \"1\", features = [\"derive\"] }\nserde_json = \"1\"\n\n# Standalone project, not part of parent workspace\n[workspace]\n"@
}

/// The manifest text around a dependency line.
fn manifest(name: &str, dep_line: &str) -> (r: String)
    ensures
        r@ == manifest_text(name@, dep_line@),
{
    let mut r = String::from_str("[package]\nname = \"");
    r.append(name);
    r.append("\"\nversion = \"0.1.0\"\nedition = \"2021\"\n\n[dependencies]\n");
    r.append(dep_line);
    r.append(
        "\ntokio = { version = \"1\", features = [\"full\"] }\nserde = { version = \"1\", features = [\"derive\"] }\nserde_json = \"1\"\n\n# Standalone project, not part of parent workspace\n[workspace]\n",
    );
    r
}

/// The Cargo.toml of a generated program: the runtime dependency gets the
/// persistence backend's feature when the program has persistent beliefs.
pub fn generate_cargo_toml_with_persistence(
    runtime_dep: &RuntimeDep,
    persistence: &PersistenceBackend,
    name: &str,
    needs_persistence: bool,
) -> (r: String)
    ensures
        r@ == manifest_text(
            name@,
            cargo_dep_line(*runtime_dep, if needs_persistence { backend_feature(*persistence) } else { None }),
        ),
{
    let feature_flag = if needs_persistence {
        persistence.feature_flag()
    } else {
        None
    };
    let dep_line = runtime_dep.to_cargo_dep(feature_flag);
    manifest(name, dep_line.as_str())
}

/// The Cargo.toml of a generated test binary.
pub fn generate_test_cargo_toml(runtime_dep: &RuntimeDep, name: &str) -> (r: String)
    ensures
        r@ == manifest_text(name@, cargo_dep_line(*runtime_dep, None)),
{
    let dep_line = runtime_dep.to_cargo_dep(None);
    manifest(name, dep_line.as_str())
}


/// Restart-intensity limits for supervisors: at most `max_restarts`
/// restarts within `within_seconds` seconds.
#[derive(Debug)]
pub struct SupervisionConfig {
    pub max_restarts: u32,
    pub within_seconds: u64,
}

/// Full configuration for code generation.
#[derive(Debug)]
pub struct CodegenConfig {
    /// How to specify the sage-runtime dependency.
    pub runtime_dep: RuntimeDep,
    /// Persistence backend configuration.
    pub persistence: PersistenceBackend,
    /// Supervision configuration (restart intensity limits).
    pub supervision: SupervisionConfig,
    /// Observability configuration for tracing.
    pub observability: ObservabilityConfig,
}

/// The Cargo.toml of a generated program under a configuration: the
/// runtime dependency gets the persistence backend's feature when some
/// agent of the program has a `@persistent` belief.
pub fn generate_cargo_toml(program: &crate::ast::Program, name: &str, config: &CodegenConfig) -> (r: String)
    ensures
        r@ == manifest_text(
            name@,
            cargo_dep_line(
                config.runtime_dep,
                if crate::generator::needs_persistence(*program) {
                    backend_feature(config.persistence)
                } else {
                    None
                },
            ),
        ),
{
    let needs = crate::generator::has_persistent_fields(program);
    generate_cargo_toml_with_persistence(&config.runtime_dep, &config.persistence, name, needs)
}

} // verus!
