[package]
name = "nikos_discord_bot"
version = "0.1.0"
edition = "2021"
publish = false

[dependencies]
rand = "0.9"
poise = "0.6"
pyo3 = "*"
tokio = { version = "1", features = ["full"] }
which = "*"
serde = { version = "1", features = ["derive"] }
