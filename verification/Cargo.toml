[package]
name = "edk2_parser"
version = "0.1.0"
edition = "2021"
publish = false

[dependencies]
configparser = { version = "=3.3.0", features = ["indexmap"] }
indexmap = "=2.14.2"
rmp-serde = "=1.3.1"
rusqlite = { version = "=0.41.1", features = ["bundled"] }
thiserror = "=1.0.69"
serde = { version = "=1.0.229", features = ["derive"] }
regex = "=1.13.1"
anyhow = "=1.0.104"
