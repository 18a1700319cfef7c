[package]
name = "bluper"
version = "0.1.0"
edition = "2021"
publish = false

[dependencies]
anyhow = "1"
battery = "*"
ble-peripheral-rust = "*"
clap = { version = "4", features = ["derive"] }
softbuffer = "*"
tokio = { version = "1", features = ["macros", "rt-multi-thread", "sync", "time"] }
tracing = "0.1"
tracing-subscriber = { version = "0.3", features = ["env-filter"] }
uuid = "1"
winit = "*"
