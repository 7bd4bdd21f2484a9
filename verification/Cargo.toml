[package]
name = "wasm_lambda"
version = "0.1.0"
edition = "2021"
publish = false

[dependencies]
wasmtime = "=35.0.0"
wasmtime-wasi = "=35.0.0"
wasi-experimental-http = "=0.10.0"
anyhow = "1"
serde_json = "1"
lambda_runtime = "=1.4.0"
tokio = { version = "1", features = ["macros", "rt-multi-thread"] }
tracing = "0.1"
tracing-subscriber = "0.3"

[dev-dependencies]
wat = "1"
