[package]
name = "chat_service"
version = "0.1.0"
edition = "2021"
publish = false

[dependencies]
argon2 = "=0.5.3"
async-trait = "=0.1.92"
chrono = "=0.4.45"
dotenvy = "=0.15.7"
jsonwebtoken = "=9.3.1"
rocket = { version = "=0.5.2", features = ["json", "secrets"] }
sea-orm = { version = "=0.12.15", features = ["sqlx-postgres", "runtime-tokio-rustls", "macros", "with-chrono"] }
sea-orm-migration = { version = "=0.12.15", default-features = false, features = ["sqlx-postgres", "runtime-tokio-rustls"] }
serde = { version = "=1.0.229", features = ["derive"] }
serde_json = { version = "=1.0.154", features = ["raw_value"] }
sha256 = "=1.6.0"
