[package]
name = "webview_bridge"
version = "0.1.0"
edition = "2021"
publish = false

[dependencies]
http = "1"
mlua = { version = "0.9", features = ["luau", "async", "serialize"] }
mlua-luau-scheduler = "0.0.2"
serde = { version = "1", features = ["derive"] }
serde_json = "1"
tokio = { version = "1", default-features = false, features = ["macros", "rt", "sync", "time"] }
winit = { version = "0.29", default-features = false, features = ["rwh_06", "x11"] }
