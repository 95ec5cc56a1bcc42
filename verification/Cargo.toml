[package]
name = "assist_desktop"
version = "0.1.0"
edition = "2021"
publish = false

[dependencies]
log = "=0.4.34"
opener = "=0.9.0"
serde = { version = "=1.0.229", features = ["derive"] }
serde_json = "=1.0.154"
tauri = { version = "2", default-features = false, features = ["tray-icon", "wry"] }
url = "=2.5.8"
webkit2gtk = "2"
