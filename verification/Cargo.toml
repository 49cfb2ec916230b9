[package]
name = "sensei-lib"
version = "0.1.0"
edition = "2021"
publish = false

[dependencies]
serde_json = "=1.0.154"
regex = "=1.13.1"
serde = { version = "=1.0.229", features = ["derive"] }
serde_yaml = "=0.9.34"
anyhow = "=1.0.104"
thiserror = "=2.0.21"
async-trait = "=0.1.92"
tokio = { version = "=1.54.1", features = ["full"] }
reqwest = { version = "=0.12.28", default-features = false, features = ["json", "rustls-tls"] }
genai = "=0.7.1"
sqlx = { version = "=0.9.0", default-features = false, features = ["sqlite", "runtime-tokio"] }
sqlite-vec = "=0.1.9"
libsqlite3-sys = "=0.37.0"
axum = "=0.8.9"
dotenvy = "=0.15.7"
tracing = "=0.1.44"
tracing-subscriber = "=0.3.23"
uuid = { version = "=1.29.0", features = ["v4"] }
chrono = { version = "=0.4.45", features = ["serde"] }
hyper = { version = "=1.12.0", features = ["client", "http1"] }
hyper-util = { version = "=0.1.21", features = ["tokio"] }
http-body-util = "=0.1.5"
clap = { version = "4", features = ["derive"] }
ratatui = "=0.29.0"
tui-textarea = "=0.7.0"
