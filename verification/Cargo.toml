[package]
name = "redfish_util"
version = "0.1.0"
edition = "2021"
publish = false

[dependencies]
getopts = "0.2"
reqwest = "0.9"
serde = { version = "1", features = ["derive"] }
serde_json = "1"
