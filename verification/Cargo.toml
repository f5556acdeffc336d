[package]
name = "tcg_expansions"
version = "0.1.0"
edition = "2021"
publish = false

[dependencies]
rand_core = { version = "=0.6.4", features = ["getrandom"] }
serde_json = "=1.0.154"
