[package]
name = "rocket_rest_quickstart"
version = "0.1.0"
edition = "2021"
publish = false

[dependencies]
argon2 = { version = "0.5", features = ["std"] }
validator = "0.16"
uuid = { version = "1", features = ["v4"] }
rocket = { version = "0.5", features = ["json", "secrets"] }
rocket_sync_db_pools = { version = "0.1", features = ["diesel_postgres_pool"] }
diesel = { version = "2", features = ["postgres", "chrono"] }
diesel_migrations = "2"
chrono = { version = "0.4", features = ["serde"] }
dotenv = "0.15"
serde = { version = "1", features = ["derive"] }
