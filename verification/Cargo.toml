[package]
name = "conveyorbelt"
version = "0.1.0"
edition = "2021"
publish = false

[dependencies]
clap = "4"
git2 = { version = "0.20", default-features = false }
tokio = { version = "1", features = ["full"] }
notify = "8"
nix = { version = "0.30", features = ["signal"] }
tempfile = "3"
anyhow = "1"
serde = { version = "1", features = ["derive"] }
serde_json = "1"
tracing = "0.1"
tracing-subscriber = { version = "0.3", features = ["env-filter"] }
futures = "0.3"
chromiumoxide = "*"
hyper = { version = "0.14", features = ["server", "tcp", "http1"] }
static-web-server = { version = "2", default-features = false }
derive_more = { version = "2", features = ["display"] }
thiserror = "2"
tokio-stream = "0.1"
