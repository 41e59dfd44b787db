[package]
name = "neural_fs"
version = "0.1.0"
edition = "2021"
publish = false

[dependencies]
uuid = { version = "=1.29.0", features = ["v4", "v7"] }
chrono = "=0.4.45"
rand = "=0.8.8"
hex = "=0.4.3"
blake3 = "=1.8.7"
serde = { version = "=1.0.229", features = ["derive"] }
serde_json = "=1.0.154"
tokio = { version = "=1.54.1", features = ["rt-multi-thread", "macros", "sync", "fs", "time", "process"] }
thiserror = "=1.0.69"
tracing = "=0.1.44"
tracing-subscriber = "=0.3.23"
dirs = "=5.0.1"
directories = "=5.0.1"
dashmap = "=5.5.3"
lazy_static = "=1.5.1"
axum = "=0.7.9"
tower-http = { version = "=0.5.2", features = ["cors"] }
sqlx = { version = "=0.7.4", default-features = false, features = ["sqlite", "runtime-tokio", "macros"] }
ndarray = "=0.15.6"
image = { version = "=0.24.9", default-features = false, features = ["png", "jpeg"] }
ort = { version = "=2.0.0-rc.15", default-features = false }
secrecy = "=0.8.0"
reqwest = { version = "=0.11.27", default-features = false, features = ["json"] }
regex = "1"
