[package]
name = "dinstaller"
version = "0.1.0"
edition = "2021"
publish = false

[dependencies]
async-std = { version = "1", features = ["attributes"] }
clap = { version = "4", features = ["derive"] }
curl = { version = "0.4", default-features = false }
futures = "0.3"
futures-util = "0.3"
indicatif = "0.17"
jsonschema = { version = "0.16", default-features = false }
serde = { version = "1", features = ["derive"] }
serde_json = "1"
serde_yaml = "0.9"
tempfile = "3"
thiserror = "1"
zbus = "3"
