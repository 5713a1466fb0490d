[package]
name = "gravity_sdk"
version = "0.1.0"
edition = "2021"
publish = false

[dependencies]
anyhow = "=1.0.104"
async-trait = "=0.1.92"
axum = "=0.7.9"
axum-server = { version = "=0.7.3", default-features = false, features = ["tls-rustls-no-provider"] }
bcs = "=0.1.6"
fail = { version = "=0.5.1", features = ["failpoints"] }
futures = "=0.3.34"
rand = "=0.7.3"
rustls = { version = "=0.23.46", default-features = false, features = ["ring", "std", "tls12"] }
serde = { version = "=1.0.229", features = ["derive", "rc"] }
serde_json = "=1.0.154"
tokio = { version = "=1.54.1", features = ["macros", "rt-multi-thread", "sync", "time"] }
tracing = "=0.1.44"
