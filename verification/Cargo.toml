[package]
name = "wgram"
version = "0.1.0"
edition = "2021"
publish = false

[dependencies]
uuid = { version = "=1.27.0", features = ["v4"] }
serde = { version = "=1.0.229", features = ["derive"] }
serde_json = "=1.0.151"
anyhow = "=1.0.104"
axum = { version = "=0.8.9", features = ["ws"] }
tokio = { version = "=1.53.2", features = ["rt-multi-thread", "macros", "net", "time", "sync"] }
tower-http = { version = "=0.7.1", features = ["cors"] }
tracing = "=0.1.44"
tracing-subscriber = "=0.3.23"
dotenvy = "=0.15.7"
grammers-client = "=0.10.0"
grammers-mtsender = "=0.10.0"
grammers-session = "=0.10.0"
glass_pumpkin = "=2.0.0-rc0"
