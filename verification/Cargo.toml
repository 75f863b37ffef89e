[package]
name = "money_ledger"
version = "0.1.0"
edition = "2021"
publish = false

[dependencies]
async-trait = "=0.1.92"
chrono = "=0.4.45"
rusqlite = { version = "=0.40.2", features = ["chrono"] }
rusqlite_migration = "=2.6.0"
serde = { version = "=1.0.229", features = ["derive"] }
uuid = { version = "=1.29.0", features = ["v4"] }

[dev-dependencies]
tokio = { version = "1", features = ["rt-multi-thread"] }
