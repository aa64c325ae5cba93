[package]
name = "notify_server"
version = "0.1.0"
edition = "2021"
publish = false

[dependencies]
anyhow = "=1.0.104"
arc-swap = "=1.9.3"
argon2 = { version = "=0.5.3", features = ["std"] }
axum = "=0.7.9"
dashmap = "=6.2.1"
futures = "=0.3.34"
serde = { version = "=1.0.229", features = ["derive"] }
serde_json = "=1.0.154"
sqlx = { version = "=0.8.6", default-features = false, features = ["postgres", "runtime-tokio"] }
thiserror = "=1.0.69"
tokio = { version = "=1.54.1", features = ["macros", "rt", "rt-multi-thread", "sync"] }
tower-http = { version = "=0.5.2", features = ["cors"] }
tracing = "=0.1.44"
utoipa = "=4.2.3"
