[package]
name = "relative"
version = "0.2.0"
edition = "2021"
publish = false

[dependencies]
build_id = "0.2"
serde = "1"
uuid = { version = "0.8", features = ["serde"] }

[dev-dependencies]
bincode = "1"
metatype = "0.2"
serde_json = "1"
