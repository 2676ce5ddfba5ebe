[package]
name = "aio_plugin_dictionary"
version = "0.1.0"
edition = "2021"
publish = false

[dependencies]
uuid = { version = "=1.29.1", features = ["v4"] }
getrandom = "=0.4.3"
serde = { version = "=1.0.229", features = ["derive"] }
serde_json = "=1.0.154"
anyhow = "=1.0.104"
async-trait = "=0.1.92"
axum = "=0.8.9"
sqlx = { version = "=0.8.6", default-features = false, features = ["postgres", "runtime-tokio", "macros"] }
dill = "=0.17.2"
reqwest = { version = "=0.12.28", default-features = false, features = ["json", "rustls-tls"] }
