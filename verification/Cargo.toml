[package]
name = "webby"
version = "0.1.0"
edition = "2021"
publish = false

[dependencies]
argon2 = "=0.5.3"
axum = "=0.8.9"
axum-extra = { version = "=0.10.3", features = ["typed-header"] }
dotenvy = "=0.15.7"
jsonwebtoken = "=9.3.1"
rand = "=0.8.8"
serde = { version = "=1.0.229", features = ["derive"] }
serde_json = { version = "=1.0.154", features = ["preserve_order"] }
toasty = { version = "=0.11.0", features = ["sqlite"] }
tokio = { version = "=1.54.1", features = ["full"] }
tower = { version = "=0.5.3", features = ["util", "limit"] }
tower_governor = { version = "=0.8.0", default-features = false, features = ["axum"] }
tower-http = { version = "=0.6.11", features = ["fs", "timeout", "trace"] }
tracing = "=0.1.44"
tracing-subscriber = { version = "=0.3.23", features = ["env-filter"] }
validator = { version = "=0.21.0", features = ["derive"] }
