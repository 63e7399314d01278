[package]
name = "lean_impl"
version = "0.1.0"
edition = "2021"
publish = false

[dependencies]
arbitrary = "1"
serde = { version = "1", features = ["derive"] }
serde_json = "1"
solana-sbpf = "*"
