[package]
name = "clipboard_bridge"
version = "0.1.0"
edition = "2021"
publish = false

[dependencies]
arboard = "*"
btleplug = "*"
tokio = { version = "*", features = ["rt-multi-thread", "time", "macros"] }
uuid = "*"
