[package]
name = "beacon_searcher"
version = "0.1.0"
edition = "2021"
publish = false

[dependencies]
regex = "1"
uuid = "0.8"
btleplug = "0.9"
futures = "0.3"
glib = "0.15"
gtk = "0.15"
once_cell = "1"
tokio = { version = "1", features = ["rt-multi-thread", "macros"] }
