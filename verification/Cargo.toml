[package]
name = "freetds"
version = "0.1.0"
edition = "2021"
publish = false

[dependencies]
chrono = { version = "=0.4.45", features = ["serde"] }
log = "=0.4.34"
rust_decimal = "=1.43.0"
serde = { version = "=1.0.229", features = ["derive"] }
