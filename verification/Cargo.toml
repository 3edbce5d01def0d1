[package]
name = "lldap"
version = "0.1.0"
edition = "2021"
publish = false

[dependencies]
sea-query = "*"
sqlx = { version = "*", default-features = false, features = ["any", "runtime-tokio"] }
chrono = "*"
async-trait = "*"
futures-util = "*"
anyhow = "*"
