[package]
name = "dtm_server"
version = "0.1.0"
edition = "2021"
publish = false

[dependencies]
tokio = { version = "=1.53.2", features = ["full"] }
serde = { version = "*", features = ["derive"] }
serde_json = "=1.0.151"
uuid = { version = "=1.27.0", features = ["v4"] }
axum = "=0.8.9"
futures = "=0.3.34"
reqwest = { version = "=0.13.5", default-features = false, features = ["stream", "form"] }
async-stream = "=0.3.6"
tower-http = { version = "=0.7.1", features = ["cors", "fs"] }
tokio-util = { version = "=0.7.19", features = ["io"] }
zip = { version = "=8.6.0", default-features = false, features = ["deflate"] }
