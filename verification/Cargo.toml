[package]
name = "ra_discord_rp"
version = "0.1.0"
edition = "2021"
publish = false

[dependencies]
confy = "*"
dialoguer = "*"
directories = "*"
presenceforge = "*"
reqwest = { version = "0.12", default-features = false, features = ["json", "rustls-tls"] }
serde = { version = "1", features = ["derive"] }
serde_json = "1"
thiserror = "*"
tokio = { version = "1", features = ["rt-multi-thread", "macros", "signal", "time"] }
toml = "*"
tracing = "0.1"
tracing-subscriber = "0.3"
