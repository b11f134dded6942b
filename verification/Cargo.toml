[package]
name = "yoloeats_core"
version = "0.1.0"
edition = "2021"
publish = false

[dependencies]
axum = "0.8"
bson = { version = "2", features = ["chrono-0_4"] }
chrono = { version = "0.4", features = ["serde"] }
dotenvy = "0.15"
futures = "0.3"
mongodb = "3"
neo4rs = "*"
qdrant-client = { version = "1", default-features = false, features = ["serde"] }
redis = { version = "*", features = ["tokio-comp"] }
reqwest = { version = "0.12", default-features = false, features = ["json"] }
serde = { version = "1", features = ["derive"] }
serde_json = "1"
thiserror = "2"
tokio = { version = "1", features = ["full"] }
tower-http = { version = "0.6", features = ["cors"] }
tracing = "0.1"
tracing-subscriber = { version = "0.3", features = ["env-filter"] }
uuid = { version = "1", features = ["v5"] }
validator = { version = "*", features = ["derive"] }
