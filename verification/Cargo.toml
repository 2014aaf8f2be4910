[package]
name = "innofile"
version = "0.1.0"
edition = "2021"
publish = false

[dependencies]
anyhow = "=1.0.104"
arrow = { version = "=59.3.1", default-features = false, features = ["test_utils"] }
arrow-csv = "=59.3.1"
arrow-json = "=59.3.1"
async-trait = "=0.1.92"
bytes = "=1.12.1"
clap = { version = "=4.6.7", features = ["derive"] }
fluent-uri = "=0.3.2"
futures = "=0.3.34"
object_store = { version = "=0.14.2", features = ["aws"] }
orc-rust = "=0.9.0"
parquet = { version = "=59.3.1", default-features = false, features = ["arrow", "async"] }
thiserror = "=2.0.21"
tokio = { version = "=1.54.1", features = ["fs", "io-util", "rt"] }

[dev-dependencies]
tempfile = "=3.27.0"
