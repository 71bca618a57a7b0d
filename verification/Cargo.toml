[package]
name = "recoil_engine"
version = "0.1.0"
edition = "2021"
publish = false

[dependencies]
anyhow = "1"
parking_lot = { version = "0.12", features = ["arc_lock"] }
reqwest = { version = "0.12", default-features = false, features = ["json"] }
serde = { version = "1", features = ["derive"] }
serde_json = "1"
tokio = { version = "1", default-features = false, features = ["rt"] }
winapi = { version = "0.3", features = ["winuser", "libloaderapi", "fileapi", "hidusage", "minwindef", "windef"] }
