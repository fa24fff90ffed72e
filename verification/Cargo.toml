[package]
name = "table_coordination"
version = "0.1.0"
edition = "2021"
publish = false

[dependencies]
iceberg = { version = "*", default-features = false }

[dev-dependencies]
serde_json = "1"
