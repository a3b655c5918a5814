[package]
name = "secure_db_bootstrap"
version = "0.1.0"
edition = "2021"
publish = false

[dependencies]
confy = "*"
openssl = "*"
postgres-openssl = "*"
serde = { version = "*", features = ["derive"] }
tokio = { version = "*", features = ["macros", "rt-multi-thread"] }
tokio-postgres = "*"
