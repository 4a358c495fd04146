[package]
name = "rs_postgres"
version = "0.1.0"
edition = "2021"
publish = false

[dependencies]
indexmap = "*"
sqlx = { version = "*", default-features = false, features = ["runtime-tokio", "postgres", "chrono", "json"] }
chrono = "*"
serde_json = "*"
csv = "*"
tokio = { version = "*", features = ["rt-multi-thread"] }
