[package]
name = "idparse"
version = "0.1.0"
edition = "2021"
publish = false

[dependencies]
serde = { version = "*", features = ["derive"] }
thiserror = "*"
derive_more = { version = "*", features = ["display"] }
