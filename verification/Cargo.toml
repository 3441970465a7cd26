[package]
name = "renovate-gitea-sharding"
version = "0.1.0"
edition = "2021"
publish = false

[dependencies]
color-eyre = "0.6"
dagger-sdk = "0.9"
dotenv = "0.15"
eyre = "0.6"
gritea = "0.1"
rand = "0.8"
tokio = { version = "1", features = ["macros", "rt-multi-thread", "sync", "time"] }
tokio-scoped = "0.2"
tracing = "0.1"
tracing-subscriber = "0.3"
