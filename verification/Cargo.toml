[package]
name = "uesave"
version = "0.1.0"
edition = "2021"
publish = false

[dependencies]
byteorder = "1"
indexmap = { version = "2", features = ["serde"] }
uuid = { version = "1", features = ["serde"] }
serde = { version = "1", features = ["derive"] }
serde_json = "1"
wasm-bindgen = "0.2"
js-sys = "0.3"
