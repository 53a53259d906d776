[package]
name = "bamep_server"
version = "0.1.0"
edition = "2021"
publish = false

[dependencies]
async-trait = "*"
chrono = "*"
futures-util = "*"
rustix = { version = "*", features = ["fs", "process"] }
serde_json = "*"
sqlx = { version = "*", default-features = false, features = ["chrono", "json", "macros", "migrate", "postgres", "runtime-tokio", "uuid"] }
thiserror = "*"
tokio = { version = "*", features = ["full"] }
tokio-tungstenite = "*"
uuid = { version = "*", features = ["v4"] }
