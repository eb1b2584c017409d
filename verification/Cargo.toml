[package]
name = "dgit"
version = "0.1.0"
edition = "2021"
publish = false

[dependencies]
serde_json = "*"
anyhow = "*"
axum = "*"
clap = { version = "*", features = ["derive", "env"] }
colored = "*"
dialoguer = "*"
dirs = "*"
dotenv = "*"
ethcontract = { version = "*", default-features = false, features = ["http"] }
reqwest = { version = "*", features = ["json", "multipart"] }
serde = { version = "*", features = ["derive"] }
tempfile = "*"
tokio = { version = "*", features = ["full"] }
toml = "*"
tracing = "*"
tracing-subscriber = "*"
walkdir = "*"
