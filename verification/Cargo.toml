[package]
name = "volcano_bridge"
version = "0.1.0"
edition = "2021"
publish = false

[dependencies]
tokio = { version = "1", features = ["rt-multi-thread", "sync", "time", "macros"] }
bluer = { version = "=0.17.4", features = ["bluetoothd"] }
futures = "0.3"
