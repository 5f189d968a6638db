[package]
name = "policy_evaluator"
version = "0.1.0"
edition = "2021"
publish = false

[dependencies]
serde_json = "=1.0.151"
serde = { version = "1", features = ["derive"] }
wasmparser = "=0.261.0"
semver = "=1.0.28"
wapc = "=2.2.0"
wasmtime-provider = "=2.25.0"
kubewarden-policy-sdk = "=0.17.3"
k8s-openapi = { version = "=0.28.0", features = ["latest"] }
