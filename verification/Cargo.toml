[package]
name = "circom_ast"
version = "0.1.0"
edition = "2021"
publish = false

[dependencies]
regex = "1"
serde = { version = "1", features = ["derive"] }
serde_json = "1"
log = "0.4"
log4rs = "1"
