[package]
name = "nanobot"
version = "0.1.0"
edition = "2021"
publish = false

[dependencies]
ontodev_valve = "=0.2.1"
toml = "=1.1.6"
csv = "=1.4.0"
sqlx = "=0.5.13"
git2 = "=0.21.0"
axum = "=0.8.9"
tokio = { version = "=1.53.2", features = ["macros", "rt-multi-thread"] }
serde = { version = "=1.0.229", features = ["derive"] }
