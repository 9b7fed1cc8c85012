[package]
name = "inheritx_backend"
version = "0.1.0"
edition = "2021"
publish = false

[dependencies]
anyhow = "1"
chrono = { version = "0.4", features = ["serde"] }
hex = "0.4"
ring = "0.17"
rust_decimal = "1"
serde = { version = "1", features = ["derive"] }
sqlx = { version = "0.8", default-features = false, features = ["postgres", "runtime-tokio", "derive", "uuid", "chrono"] }
uuid = { version = "1", features = ["v4", "serde"] }
