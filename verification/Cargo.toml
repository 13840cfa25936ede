[package]
name = "quest_ledger"
version = "0.1.0"
edition = "2021"
publish = false

[dependencies]
chrono = "0.4"
unicode-normalization = "0.1"
serde = { version = "1", features = ["derive"] }
serde_json = { version = "1", features = ["preserve_order"] }
uuid = { version = "1", features = ["v4"] }
tokio = { version = "1", features = ["rt-multi-thread", "macros", "net", "time"] }
axum = "0.7"
dotenv = "0.15"
futures-util = "0.3"
google-sheets4 = "5"
poise = "0.6"
serenity = "0.12"
rdkafka = "0.36"
redis = { version = "0.25", features = ["tokio-comp"] }
