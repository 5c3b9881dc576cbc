[package]
name = "mvx_observer"
version = "0.1.0"
edition = "2021"
publish = false

[dependencies]
anyhow = "*"
clickhouse = { version = "*", default-features = false }
config = "*"
reqwest = { version = "*", default-features = false, features = ["json"] }
serde = { version = "*", features = ["derive"] }
tokio = { version = "*", features = ["macros", "rt-multi-thread", "time"] }
tracing = "*"
