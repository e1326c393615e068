[package]
name = "urchin"
version = "0.1.0"
edition = "2021"
publish = false

[dependencies]
anyhow = "=1.0.104"
async-trait = "=0.1.92"
dotenvy = "=0.15.7"
futures-util = "=0.3.34"
reqwest = { version = "=0.11.27", default-features = false, features = ["json", "rustls-tls"] }
serde = { version = "=1.0.229", features = ["derive"] }
serde_json = "=1.0.154"
serenity = "=0.12.5"
sled = "=0.34.7"
# teloxide-core pulls takecell 0.1; 0.1.2 needs Rust 1.96, so it is held at 0.1.1.
takecell = "=0.1.1"
teloxide = { version = "=0.12.2", default-features = false, features = ["rustls"] }
tokio = { version = "=1.54.1", features = ["full"] }
tokio-tungstenite = { version = "=0.21.0", features = ["rustls-tls-webpki-roots"] }
toml = "=0.8.23"
tracing = "=0.1.44"
