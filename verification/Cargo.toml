[package]
name = "shared_mutex"
version = "0.1.0"
edition = "2021"
publish = false

[dependencies]
poison = "*"

[dev-dependencies]
scoped-pool = "*"
