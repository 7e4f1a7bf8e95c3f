[package]
name = "sage_checker"
version = "0.1.0"
edition = "2021"
publish = false

[dependencies]
clap = { version = "4", features = ["derive"] }
console = "0.15"
dotenvy = "0.15"
indicatif = "0.17"
miette = "7"
thiserror = "1"
toml_edit = "0.22"
