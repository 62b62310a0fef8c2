[package]
name = "fixed_timestamp"
version = "0.1.0"
edition = "2021"
publish = false

[dependencies]
chrono = "*"
time = "*"
serde = { version = "*", features = ["derive"] }
rkyv = "*"
