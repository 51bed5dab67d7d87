[package]
name = "quack_rs"
version = "0.1.0"
edition = "2021"
publish = false

[dependencies]
libduckdb-sys = { version = "=1.10505.0", default-features = false, features = ["loadable-extension"] }
