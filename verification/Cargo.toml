[package]
name = "web_app"
version = "0.1.0"
edition = "2021"
publish = false

[dependencies]
hmac = "0.12"
sha2 = "0.10"
serde = { version = "1", features = ["derive"] }
serde_json = "1"
serde_with = "3"
uuid = "1"
time = "0.3"
axum = "0.6"
tokio = { version = "1", features = ["full"] }
tower-cookies = "0.9"
tracing = "0.1"
async-trait = "0.1"
futures = "0.3"
derive_more = { version = "1", features = ["from"] }
strum_macros = "0.25"
sqlx = { version = "0.7", features = ["runtime-tokio", "postgres", "uuid", "time"] }
sea-query = "0.30"
sea-query-binder = { version = "0.5", features = ["sqlx-postgres", "with-uuid", "with-time"] }
modql = { version = "0.3", features = ["with-sea-query"] }
