[package]
name = "dungeonctl"
version = "0.1.0"
edition = "2021"
publish = false

[dependencies]
arrayvec = "0.7"
binrw = "*"
btleplug = "*"
futures = "0.3"
futures-signals = "0.3"
tokio = { version = "1", features = ["rt", "time", "sync", "macros"] }
tracing = "0.1"
uuid = "1"
