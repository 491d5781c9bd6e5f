[package]
name = "submission_store"
version = "0.1.0"
edition = "2021"
publish = false

[dependencies]
sqlite = "*"
axum = "*"
tokio = { version = "*", features = ["rt-multi-thread", "macros", "net"] }
tower-http = { version = "*", features = ["fs"] }
serde = { version = "*", features = ["derive"] }
