[package]
name = "mermaduckle"
version = "0.1.0"
edition = "2021"
publish = false

[dependencies]
regex = "1"
serde = { version = "1", features = ["derive"] }
serde_json = "1"
reqwest = { version = "0.12", default-features = false, features = ["json"] }
tokio = { version = "1", features = ["full"] }
futures = "0.3"
actix-web = { version = "4", default-features = false, features = ["macros"] }
actix-files = "0.6"
actix-web-httpauth = "0.8"
argon2 = "0.5"
rand = "0.8"
rusqlite = "0.31"
r2d2 = "0.8"
r2d2_sqlite = "0.24"
uuid = { version = "1", features = ["v4"] }
chrono = "0.4"
clap = { version = "4", features = ["derive"] }
colored = "2"
indicatif = "0.17"
env_logger = "0.11"
log = "0.4"
