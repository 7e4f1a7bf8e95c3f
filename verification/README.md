# sage_checker

Semantic checking for Sage programs (a language in which agents are
first-class), proved correct with Verus, with the project tooling around it.

## Layout

- `src/ast.rs`: the syntax tree the checker reads.
- `src/types.rs`, `src/resolve.rs`: resolved types, their compatibility and
  substitution, and the resolution of written types.
- `src/names.rs`, `src/scope.rs`, `src/builtins.rs`: name-keyed tables, scopes,
  the symbol table and the built-in functions, enums and tools.
- `src/error.rs`: the checker's errors.
- `src/rules.rs`, `src/decls.rs`: the checking rules as spec functions, and the
  first pass (declarations and duplicates).
- `src/checker.rs`: the checker of a program, proved to follow the rules.
- `src/modules.rs`: checking a tree of modules with `use` imports and
  visibility.
- `src/laws.rs`: laws of checking (errors are never retracted, duplicates
  come first, visibility of imports, built-ins survive every definition).
- `src/codegen.rs`, `src/generator.rs`: generated `Cargo.toml` files, the
  generator's state and indentation, and the Rust text of types, operators,
  records, enums, checkpoint stores and derived names.
- `src/exprgen.rs`, `src/stmtgen.rs`, `src/assertgen.rs`, `src/declgen.rs`,
  `src/protocolgen.rs`: the Rust text of expressions (built-in calls by
  their templates), statements and blocks, test assertions, functions and
  constants, and the state machine module of a protocol, each proved equal
  to its spec function.
- `src/project.rs`, `src/manifest.rs`: project scaffolding, and editing the
  dependencies of `sage.toml`.
- `app/`: the `sage` command line (`new`, `add`, `remove`).
- `tests/`: the tests.
