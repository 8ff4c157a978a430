[package]
name = "articles_api"
version = "0.1.0"
edition = "2021"
publish = false

[dependencies]
actix-web = { version = "=4.18.1", default-features = false, features = ["macros"] }
anyhow = "=1.0.104"
async-trait = "=0.1.92"
derive_more = { version = "=2.1.1", features = ["display"] }
dotenv = "=0.15.0"
env_logger = "=0.11.11"
futures-util = "=0.3.34"
sea-orm = { version = "=2.0.4", default-features = false, features = ["macros", "runtime-tokio", "sqlx-postgres"] }
sea-orm-migration = { version = "=2.0.4", default-features = false, features = ["runtime-tokio", "sqlx-postgres"] }
sentry = { version = "=0.49.3", default-features = false, features = ["backtrace"] }
serde = { version = "=1.0.229", features = ["derive"] }
