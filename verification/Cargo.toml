[package]
name = "bggcli"
version = "0.1.0"
edition = "2021"
publish = false

[dependencies]
anyhow = "1"
clap = { version = "4", features = ["derive"] }
futures = "0.3"
http-cache-reqwest = "0.14"
indicatif = "0.17"
quick-xml = { version = "0.36", features = ["serialize"] }
reqwest = "0.12"
reqwest-middleware = "0.3"
reqwest-retry = "0.6"
serde = { version = "1", features = ["derive"] }
sqlx = { version = "0.8", features = ["runtime-tokio", "sqlite", "migrate"] }
tokio = { version = "1", features = ["full"] }
xdg = "2"
