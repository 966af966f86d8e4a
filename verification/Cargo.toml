[package]
name = "aur_thumbsup"
version = "0.1.0"
edition = "2021"
publish = false

[dependencies]
anyhow = "=1.0.104"
colored = "=2.2.0"
cookie = { version = "=0.16.2", features = ["percent-encode"] }
dialoguer = "=0.10.4"
reqwest = { version = "=0.11.27", default-features = false, features = ["blocking", "cookies", "gzip", "json", "rustls-tls"] }
scraper = { version = "=0.13.0", default-features = false, features = ["deterministic"] }
serde = { version = "=1.0.229", features = ["derive"] }
time = "=0.3.55"
toml = "=0.5.11"
tracing = "=0.1.44"
tracing-subscriber = { version = "=0.3.23", features = ["env-filter"] }
