//! Semantic checking for Sage programs: resolved types, scopes and the
//! symbol table, and the type checker over the syntax tree; and the Rust
//! code generated for their expressions, statements, functions, constants,
//! records, enums and protocols.

pub mod ast;
pub mod builtins;
pub mod error;
pub mod names;
pub mod scope;
pub mod text;
pub mod types;
pub mod resolve;
pub mod checker;
pub mod rules;
pub mod decls;
pub mod codegen;
pub mod project;
pub mod modules;
pub mod manifest;
pub mod generator;
pub mod exprgen;
pub mod stmtgen;
pub mod assertgen;
pub mod declgen;
pub mod protocolgen;
pub mod laws;
pub mod meaning;
