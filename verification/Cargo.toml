[package]
name = "taskbase"
version = "0.1.0"
edition = "2021"
publish = false

[dependencies]
anyhow = "1"
axum = "0.6.20"
scylla = "*"
serde = { version = "1", features = ["derive"] }
tower = "0.4.13"
tower-http = { version = "0.4.4", features = ["catch-panic", "compression-full"] }
validator = { version = "0.16.1", features = ["derive"] }
xid = "1.1.1"
