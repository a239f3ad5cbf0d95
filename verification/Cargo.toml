[package]
name = "host_ai_model_backend"
version = "0.1.0"
edition = "2021"
publish = false

[dependencies]
tract-onnx = "*"
prost = "*"
bytes = "*"
candid = "*"
getrandom = { version = "0.2", features = ["custom"] }
ic-cdk = "*"
ic-stable-structures = "*"
ic-wasi-polyfill = "*"
