[package]
name = "mcp_mysql"
version = "0.1.0"
edition = "2021"
publish = false

[dependencies]
clap = { version = "*", features = ["derive"] }
env_logger = "*"
log = "*"
serde = { version = "*", features = ["derive"] }
serde_json = "*"
sqlx = { version = "*", default-features = false, features = ["mysql", "runtime-tokio", "json", "bigdecimal"] }
tokio = { version = "*", features = ["rt-multi-thread", "macros", "io-std", "io-util", "time"] }
