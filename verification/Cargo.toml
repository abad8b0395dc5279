[package]
name = "move_installer"
version = "0.1.0"
edition = "2021"
publish = false

[dependencies]
dirs = "5"
hostname = "0.4"
keyring = "2"
log = "0.4"
mdns-sd = "*"
reqwest = { version = "0.12", features = ["json", "cookies"] }
serde = { version = "1", features = ["derive"] }
serde_json = "1"
tokio = { version = "1", features = ["rt-multi-thread", "macros"] }
