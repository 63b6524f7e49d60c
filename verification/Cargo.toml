[package]
name = "cincobola_backend"
version = "0.1.0"
edition = "2021"
publish = false

[dependencies]
rust-argon2 = "0.8"
rand = "0.8"
chrono = { version = "0.4", features = ["serde"] }
rust_decimal = { version = "1", features = ["db-postgres"] }
postgres = { version = "0.19", features = ["with-chrono-0_4"] }
rocket = { version = "0.5", features = ["json"] }
rocket_sync_db_pools = { version = "0.1", features = ["postgres_pool"] }
rocket_dyn_templates = { version = "*", features = ["handlebars"] }
serde = { version = "1", features = ["derive"] }
serde_json = "1"
futures = "0.3"
