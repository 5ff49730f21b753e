[package]
name = "bedtime"
version = "0.1.0"
edition = "2021"
publish = false

[dependencies]
chrono = "0.4"
clap = "4"
rspotify = { version = "*", features = ["cli"] }
sled = "0.34"
tokio = { version = "1", features = ["macros", "rt-multi-thread", "time"] }
