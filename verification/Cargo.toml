[package]
name = "webview_shell"
version = "0.1.0"
edition = "2021"
publish = false

[dependencies]
url = "2"
clap = { version = "4", default-features = false, features = ["std", "derive", "help", "usage", "error-context"] }
tauri = { version = "2", default-features = false, features = ["wry"] }
