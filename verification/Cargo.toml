[package]
name = "taus"
version = "0.1.0"
edition = "2021"
publish = false

[dependencies]
semver = "=1.0.28"
regex = "=1.13.1"
rocket = { version = "=0.5.2", features = ["json"] }
rocket_sync_db_pools = { version = "=0.1.0", features = ["diesel_sqlite_pool"] }
rocket_cors = "=0.6.0"
diesel = { version = "=2.3.14", features = ["sqlite"] }
dotenv = "=0.15.0"
reqwest = { version = "=0.11.27", default-features = false, features = ["json", "rustls-tls"] }
