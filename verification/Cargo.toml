[package]
name = "reddit_clawler"
version = "0.1.0"
edition = "2021"
publish = false

[dependencies]
anyhow = "*"
chrono = "*"
clap = "*"
filetime = "*"
indicatif = "*"
owo-colors = "*"
reqwest = { version = "*", default-features = false, features = ["json"] }
reqwest-middleware = "*"
reqwest-retry = "*"
serde = { version = "*", features = ["derive"] }
serde_json = "*"
spinoff = "*"
tokio = { version = "*", features = ["macros", "rt-multi-thread", "sync", "time"] }
