[package]
name = "native_core"
version = "0.1.0"
edition = "2021"
publish = false

[dependencies]
anyhow = "1"
rusqlite = { version = "0.32", features = ["bundled"] }
serde_json = "1"
tracing = "0.1"
windows-sys = { version = "0.59", features = ["Win32_Foundation", "Win32_Security", "Win32_Storage_FileSystem"] }

[dev-dependencies]
tempfile = "3"
