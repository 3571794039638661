[package]
name = "query"
version = "0.1.0"
edition = "2021"
publish = false

[dependencies]
datafusion = { version = "=15.0.0", default-features = false }
chrono = { version = "=0.4.39", default-features = false }

[dev-dependencies]
futures = "0.3"
