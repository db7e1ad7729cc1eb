[package]
name = "sailfish"
version = "0.1.0"
edition = "2021"
publish = false

[dependencies]
serde = { version = "=1.0.229", features = ["derive"] }
rustc_apfloat = "*"
