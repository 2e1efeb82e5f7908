[package]
name = "lala"
version = "0.1.0"
edition = "2021"
publish = false

[dependencies]
ropey = { version = "=1.6.1", default-features = false }
regex = "=1.13.1"
tokio = { version = "=1.53.2", features = ["fs", "rt-multi-thread", "macros"] }
flume = "=0.11.1"
ignore = "=0.4.33"
