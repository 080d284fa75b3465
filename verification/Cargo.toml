[package]
name = "sundbox"
version = "0.1.0"
edition = "2021"
publish = false

[dependencies]
libc = "0.2"
process_control = "5"
serde_json = "1"
serde_json_any_key = "2"
tokio = { version = "1", features = ["rt", "net"] }
