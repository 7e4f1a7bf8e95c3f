use sage_checker::manifest::{add_dependency_to_manifest, remove_dependency_from_manifest, ManifestError};

const MANIFEST: &str = "[project]\nname = \"demo\"\nentry = \"src/main.sg\"\n";

#[test]
fn add_dependency_creates_table() {
    let out = add_dependency_to_manifest(MANIFEST, "utils", "https://example.com/utils.git", "tag", "v1.0.0")
        .expect("the manifest parses");
    assert!(out.starts_with(MANIFEST), "output: {out}");
    assert!(out.contains("[dependencies]"), "output: {out}");
    assert!(
        out.contains("utils = { git = \"https://example.com/utils.git\", tag = \"v1.0.0\" }"),
        "output: {out}"
    );
}

#[test]
fn add_dependency_keeps_existing_entries() {
    let text = format!("{MANIFEST}\n[dependencies]\nold = {{ git = \"https://example.com/old.git\", rev = \"abc\" }}\n");
    let out = add_dependency_to_manifest(&text, "new", "https://example.com/new.git", "branch", "main")
        .expect("the manifest parses");
    assert!(out.contains("old = { git = \"https://example.com/old.git\", rev = \"abc\" }"), "output: {out}");
    assert!(out.contains("new = { git = \"https://example.com/new.git\", branch = \"main\" }"), "output: {out}");
}

#[test]
fn add_dependency_into_inline_table() {
    let text = "dependencies = { }\n";
    let out = add_dependency_to_manifest(text, "x", "g", "rev", "r1").expect("the manifest parses");
    assert!(out.contains("x = { git = \"g\", rev = \"r1\" }"), "output: {out}");
    assert!(!out.contains("[dependencies]"), "output: {out}");
}

#[test]
fn add_dependency_replaces_same_package() {
    let text = "[dependencies]\nx = { git = \"a\", tag = \"t1\" }\n";
    let out = add_dependency_to_manifest(text, "x", "b", "tag", "t2").expect("the manifest parses");
    assert!(out.contains("x = { git = \"b\", tag = \"t2\" }"), "output: {out}");
    assert!(!out.contains("t1"), "output: {out}");
}

#[test]
fn add_dependency_parse_error() {
    let r = add_dependency_to_manifest("[project\nname = 1", "x", "g", "tag", "t");
    assert!(matches!(r, Err(ManifestError::Parse(_))), "result: {r:?}");
}

#[test]
fn add_dependency_not_a_table() {
    let r = add_dependency_to_manifest("dependencies = 5\n", "x", "g", "tag", "t");
    assert_eq!(r, Err(ManifestError::DependenciesNotATable));
}

#[test]
fn remove_dependency_present() {
    let text = format!("{MANIFEST}\n[dependencies]\na = {{ git = \"ga\", tag = \"1\" }}\nb = {{ git = \"gb\", tag = \"2\" }}\n");
    let out = remove_dependency_from_manifest(&text, "a").expect("a is a dependency");
    assert!(!out.contains("ga"), "output: {out}");
    assert!(out.contains("b = { git = \"gb\", tag = \"2\" }"), "output: {out}");
    assert!(out.starts_with(MANIFEST), "output: {out}");
}

#[test]
fn remove_dependency_missing() {
    let text = format!("{MANIFEST}\n[dependencies]\na = {{ git = \"ga\", tag = \"1\" }}\n");
    assert_eq!(remove_dependency_from_manifest(&text, "zzz"), Err(ManifestError::NotFound));
    assert_eq!(remove_dependency_from_manifest(MANIFEST, "a"), Err(ManifestError::NotFound));
}

#[test]
fn remove_dependency_inline_table_is_not_searched() {
    let text = "dependencies = { a = { git = \"ga\", tag = \"1\" } }\n";
    assert_eq!(remove_dependency_from_manifest(text, "a"), Err(ManifestError::NotFound));
}

#[test]
fn remove_dependency_parse_error() {
    let r = remove_dependency_from_manifest("= nope", "a");
    assert!(matches!(r, Err(ManifestError::Parse(_))), "result: {r:?}");
}

#[test]
fn add_then_remove_restores_dependencies() {
    let text = format!("{MANIFEST}\n[dependencies]\n");
    let added = add_dependency_to_manifest(&text, "p", "g", "tag", "t").expect("parses");
    let removed = remove_dependency_from_manifest(&added, "p").expect("p was added");
    assert_eq!(removed, text);
}

#[test]
fn parse_error_carries_the_parser_message() {
    let text = "[project\nname = 1";
    let expected = text.parse::<toml_edit::DocumentMut>().unwrap_err().to_string();
    match add_dependency_to_manifest(text, "x", "g", "tag", "t") {
        Err(ManifestError::Parse(m)) => assert_eq!(m, expected),
        other => panic!("unexpected: {other:?}"),
    }
    match remove_dependency_from_manifest(text, "x") {
        Err(ManifestError::Parse(m)) => assert_eq!(m, expected),
        other => panic!("unexpected: {other:?}"),
    }
}
