[package]
name = "table_orders"
version = "0.1.0"
edition = "2021"
publish = false

[dependencies]
rusqlite = { version = "=0.32.1", features = ["bundled"] }
rand = "=0.8.8"
uuid = { version = "=1.27.0", features = ["v4"] }
reqwest = { version = "=0.12.28", default-features = false, features = ["blocking"] }

[dev-dependencies]
rusqlite = { version = "=0.32.1", features = ["bundled"] }
rand = "=0.8.8"
uuid = { version = "=1.27.0", features = ["v4"] }
