[package]
name = "room_message"
version = "0.1.0"
edition = "2021"
publish = false

[dependencies]
js_int = "0.1.9"
serde_json = "1.0"
