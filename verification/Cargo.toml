[package]
name = "ai_debate"
version = "0.1.0"
edition = "2021"
publish = false

[dependencies]
anyhow = "*"
async-stream = "*"
axum = "*"
futures = "*"
reqwest = { version = "*", default-features = false, features = ["json"] }
serde = { version = "*", features = ["derive"] }
serde_json = "*"
sqlx = { version = "*", default-features = false, features = ["runtime-tokio", "sqlite"] }
tokio = { version = "*", features = ["macros", "net", "rt-multi-thread", "sync", "time"] }
tower-http = { version = "*", features = ["cors", "timeout"] }
tracing = "*"
tracing-subscriber = "*"
