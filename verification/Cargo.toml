[package]
name = "miku-notes-gateway"
version = "0.1.0"
edition = "2021"
publish = false

[dependencies]
mime_guess = "=2.0.5"
axum = { version = "=0.7.9", features = ["multipart"] }
axum-extra = { version = "=0.9.6", features = ["cookie"] }
tonic = "=0.12.3"
prost = "=0.13.5"
tokio = { version = "=1.54.1", features = ["rt-multi-thread", "macros", "net"] }
futures-util = "=0.3.34"
async-stream = "=0.3.6"
serde = { version = "=1.0.229", features = ["derive"] }
time = "=0.3.55"
tower-http = { version = "=0.5.2", features = ["cors", "trace", "limit"] }
tracing = "=0.1.44"
tracing-subscriber = { version = "=0.3.23", features = ["env-filter", "time", "local-time"] }
anyhow = "=1.0.104"
dotenvy = "=0.15.7"
rand = "=0.8.8"
