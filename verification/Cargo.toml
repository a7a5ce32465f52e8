[package]
name = "mwb_agent"
version = "0.1.0"
edition = "2021"
publish = false

[dependencies]
anyhow = "*"
arboard = "*"
chrono = "*"
clap = { version = "*", features = ["derive"] }
colored = "*"
dotenvy = "*"
mediathekviewweb = "*"
regex = "*"
reqwest = { version = "*", default-features = false, features = ["json", "rustls-tls"] }
scraper = "*"
serde = { version = "*", features = ["derive"] }
serde_json = "*"
tokio = { version = "*", features = ["macros", "rt-multi-thread"] }
tracing = "*"
tracing-subscriber = { version = "*", features = ["env-filter"] }
url = "*"
