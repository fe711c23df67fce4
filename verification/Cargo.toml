[package]
name = "my_file_cloud_server"
version = "0.1.0"
edition = "2021"
publish = false

[dependencies]
argon2 = { version = "=0.5.3", features = ["std"] }
async-trait = "=0.1.92"
axum = { version = "=0.8.9", features = ["multipart"] }
bytes = "=1.12.1"
chrono = "=0.4.45"
dotenvy = "=0.15.7"
futures = "=0.3.34"
jsonwebtoken = { version = "=10.4.0", default-features = false, features = ["rust_crypto"] }
serde = { version = "=1.0.229", features = ["derive"] }
sqlx = { version = "=0.8.6", default-features = false, features = ["mysql", "runtime-tokio", "derive"] }
tokio = { version = "=1.54.1", features = ["full"] }
tokio-util = { version = "=0.7.20", features = ["io", "io-util"] }
tower-cookies = "=0.11.0"
tower-http = { version = "=0.6.11", features = ["cors"] }
tracing = "=0.1.44"
tracing-appender = "=0.2.5"
tracing-subscriber = { version = "=0.3.23", features = ["env-filter"] }
uuid = { version = "=1.29.0", features = ["v4"] }
walkdir = "=2.5.0"
zip = { version = "=2.6.1", default-features = false, features = ["deflate"] }
