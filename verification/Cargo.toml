[package]
name = "sql_lint_core"
version = "0.1.0"
edition = "2021"
publish = false

[dependencies]
sqruff-lib = "*"
