[package]
name = "speake_rs"
version = "0.1.0"
edition = "2021"
publish = false

[dependencies]
shlex = "1"
serde = { version = "1", features = ["derive"] }
serde_json = "1"
toml = "*"
anyhow = "1"
clap = { version = "4", features = ["derive"] }
tempfile = "3"
ctrlc = "3"
hound = "3"
tokio = { version = "1", features = ["rt-multi-thread", "net", "sync", "macros"] }
axum = "*"
tower-http = { version = "*", features = ["cors"] }
