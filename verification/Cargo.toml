[package]
name = "token_tax_rec"
version = "0.1.0"
edition = "2021"
publish = false

[dependencies]
rust_decimal = "1"
serde = { version = "1", features = ["derive"] }

[dev-dependencies]
csv = "1"
chrono = { version = "0.4", default-features = false, features = ["std"] }
