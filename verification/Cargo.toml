[package]
name = "btswitch"
version = "0.1.0"
edition = "2021"
publish = false

[dependencies]
png = "0.17"
anyhow = "1"
serde = { version = "1", features = ["derive"] }
serde_json = "1"
tokio = { version = "1", features = ["full"] }
tracing = "0.1"
tracing-subscriber = "0.3"
zbus = "4"
ksni = "0.3"
gtk4 = "0.9"
