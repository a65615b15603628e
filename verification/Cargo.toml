[package]
name = "cargo_generate_rpm"
version = "0.1.0"
edition = "2021"
publish = false

[dependencies]
cargo_toml = "=0.14.1"
rpm-rs = { version = "=0.6.0", default-features = false, features = ["signature-meta"] }
thiserror = "=1.0.69"
toml = "=0.5.11"
