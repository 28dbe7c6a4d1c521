[package]
name = "synchole"
version = "0.1.0"
edition = "2021"
publish = false

[dependencies]
blake3 = "1"
serde = { version = "1", features = ["derive"] }
serde_json = "1"
rusqlite = { version = "*", features = ["bundled"] }
async-trait = "*"
bytes = { version = "1", features = ["serde"] }
thiserror = "*"
zeroize = { version = "1", features = ["derive"] }
libc = "*"
jni = "*"
wasm-bindgen = "*"
