[package]
name = "infrazeug_ext"
version = "0.1.0"
edition = "2021"
publish = false

[dependencies]
urlencoding = "=2.1.3"
serde = { version = "=1.0.229", features = ["derive"] }
serde_json = { version = "=1.0.154", features = ["raw_value"] }
reqwest = { version = "=0.12.28", default-features = false, features = ["json", "cookies", "rustls-tls"] }
tokio = { version = "=1.54.1", features = ["sync", "time", "macros", "rt"] }
thiserror = "=2.0.21"
jsonwebtoken = "=9.3.1"
uuid = { version = "=1.29.0", features = ["v4"] }
async-trait = "=0.1.92"
anyhow = "=1.0.104"
