[package]
name = "libra"
version = "0.1.0"
edition = "2021"
publish = false

[dependencies]
time = { version = "0.3", features = ["local-offset", "formatting"] }
log = "0.4"
syslog = "*"
thiserror = "*"
rusqlite = "*"
phidget = "*"
reqwest = { version = "*", default-features = false }
serde_json = "1"
