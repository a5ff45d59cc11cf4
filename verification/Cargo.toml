[package]
name = "headmaster"
version = "0.1.0"
edition = "2021"
publish = false

[dependencies]
crossbeam = "0.8"
num_cpus = "1"
tokio = { version = "1", features = ["net", "io-util", "rt", "rt-multi-thread", "time", "macros"] }
