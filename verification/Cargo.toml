[package]
name = "restream"
version = "0.1.0"
edition = "2021"
publish = false

[dependencies]
axum = "=0.8.9"
bytes = "=1.12.1"
chrono = "=0.4.45"
futures-util = "=0.3.34"
libc = "=0.2.191"
nix = { version = "=0.31.3", features = ["fs"] }
reqwest = { version = "=0.12.28", default-features = false, features = ["json"] }
rml_rtmp = "=0.8.0"
serde = { version = "=1.0.229", features = ["derive"] }
serde_json = "=1.0.154"
sha2 = "=0.10.9"
sqlx = { version = "=0.8.6", default-features = false, features = ["derive", "runtime-tokio", "sqlite"] }
sysinfo = "=0.40.1"
tokio = { version = "=1.54.1", features = ["full"] }
tokio-util = "=0.7.20"
tracing = "=0.1.44"
