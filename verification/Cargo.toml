[package]
name = "codenames"
version = "0.1.0"
edition = "2021"
publish = false

[dependencies]
itertools = "=0.10.5"
rand = "=0.8.8"
serde = { version = "=1.0.229", features = ["derive"] }
serde_json = "=1.0.154"
serenity = { version = "=0.10.10", features = ["unstable_discord_api"] }
sqlx = { version = "=0.5.13", default-features = false, features = ["runtime-tokio-rustls", "postgres", "macros"] }
tokio = { version = "=1.54.1", features = ["macros", "rt-multi-thread"] }
