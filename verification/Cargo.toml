[package]
name = "polyfill"
version = "0.1.0"
edition = "2021"
publish = false

[dependencies]
serde = { version = "1", features = ["derive"] }
serde_json = "1"
rust_decimal = "1"
chrono = { version = "0.4", default-features = false, features = ["std", "clock"] }
alloy-primitives = "1"
simd-json = "0.15"
