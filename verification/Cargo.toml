[package]
name = "dubna_internship"
version = "0.1.0"
edition = "2021"
publish = false

[dependencies]
async-trait = "=0.1.92"
axum = "=0.8.9"
axum-extra = { version = "=0.12.6", features = ["typed-header"] }
futures = "=0.3.34"
jsonwebtoken = { version = "=11.1.0", features = ["rust_crypto"] }
serde = { version = "=1.0.229", features = ["derive"] }
serde_json = "=1.0.151"
time = "=0.3.55"
tokio = { version = "=1.53.2", features = ["macros", "rt", "net", "fs"] }
tokio-postgres = { version = "=0.7.18", features = ["with-uuid-1", "with-time-0_3"] }
toml = "=1.1.7"
tower-http = { version = "=0.7.1", features = ["cors"] }
tracing-subscriber = "=0.3.23"
uuid = { version = "=1.27.0", features = ["v4"] }
