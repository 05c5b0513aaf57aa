[package]
name = "cipher_shield"
version = "0.1.0"
edition = "2021"
publish = false

[dependencies]
anyhow = "*"
async-trait = "*"
axum = { version = "*", features = ["ws"] }
base64 = "=0.23.1"
bytes = "*"
chrono = { version = "*", features = ["serde"] }
dotenvy = "*"
futures = "*"
reqwest = { version = "*", default-features = false, features = ["json", "form"] }
serde = { version = "*", features = ["derive"] }
serde_json = "=1.0.151"
sqlx = { version = "*", default-features = false, features = ["runtime-tokio", "postgres", "chrono", "uuid", "json", "derive"] }
thiserror = "*"
tokio = { version = "=1.53.2", features = ["full"] }
tokio-stream = { version = "*", features = ["sync"] }
tower-http = { version = "*", features = ["cors", "trace"] }
tracing = "*"
tracing-subscriber = { version = "*", features = ["env-filter"] }
uuid = { version = "*", features = ["v4", "serde"] }
