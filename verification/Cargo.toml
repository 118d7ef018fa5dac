[package]
name = "gas_cache"
version = "0.1.0"
edition = "2021"
publish = false

[dependencies]
clokwerk = "0.4"
reqwest = { version = "0.12", default-features = false, features = ["blocking", "json", "rustls-tls"] }
rocket = { version = "0.5", features = ["json"] }
serde = { version = "1", features = ["derive"] }
tokio = { version = "1", features = ["time", "macros", "rt-multi-thread"] }
