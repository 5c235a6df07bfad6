[package]
name = "taskify"
version = "0.1.0"
edition = "2021"
publish = false

[dependencies]
async-trait = "0.1"
chrono = "0.4"
crossterm = "0.27"
futures = "0.3"
log = "0.4"
ratatui = "0.26"
sea-orm-migration = { version = "0.12", default-features = false, features = ["sqlx-sqlite"] }
sea-query = { version = "0.30", features = ["with-chrono", "with-uuid"] }
sea-query-binder = { version = "0.5", features = ["sqlx-sqlite", "with-chrono", "with-uuid"] }
serde = { version = "1", features = ["derive"] }
simplelog = "0.12"
sqlx = { version = "0.7", default-features = false, features = ["chrono", "migrate", "runtime-tokio", "sqlite", "uuid"] }
tokio = { version = "1", features = ["full"] }
toml = "0.8"
uuid = { version = "1", features = ["v4"] }
