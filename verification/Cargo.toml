[package]
name = "tauri_lite"
version = "0.1.0"
edition = "2021"
publish = false

[dependencies]
mime_guess = "2"
tokio = { version = "1", features = ["rt-multi-thread", "net", "fs", "macros"] }
hyper = { version = "1", features = ["http1", "server"] }
hyper-util = { version = "0.1", features = ["tokio"] }
http-body-util = "0.1"
bytes = "1"
serde = { version = "1", features = ["derive"] }
serde_json = "1"
uuid = { version = "1", features = ["v4"] }
directories = "*"
