[package]
name = "sdx"
version = "0.1.0"
edition = "2021"
publish = false

[dependencies]
axum = "*"
base64 = "*"
clap = { version = "*", features = ["derive"] }
comfy-table = "*"
console = "*"
indicatif = "*"
serde = { version = "*", features = ["derive"] }
serde_json = "*"
thiserror = "*"
tokio = { version = "*", features = ["rt-multi-thread", "sync", "net", "macros", "time"] }
toml = "*"
tower-http = { version = "*", features = ["cors"] }
uuid = { version = "*", features = ["v4"] }
