[package]
name = "spinlet"
version = "0.1.0"
edition = "2021"
publish = false

[dependencies]
wasmtime = { version = "10", default-features = false, features = ["cranelift", "component-model", "async"] }
wasmtime-wasi = "10"
tokio = { version = "1", features = ["full"] }
toml = "0.7"
serde = { version = "1", features = ["derive"] }
clap = { version = "4", features = ["derive"] }
anyhow = "1"
async-trait = "0.1"
cap-std = "1"
cap-primitives = "1"
schemars = "0.8"
tracing = "0.1"
human-panic = "1"
lazy_static = "1"
