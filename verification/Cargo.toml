[package]
name = "norpc"
version = "0.1.0"
edition = "2021"
publish = false

[dependencies]
itertools = "=0.10.5"
futures = "=0.3.34"
flume = "=0.10.14"
tokio = { version = "=1.54.1", features = ["rt", "rt-multi-thread", "sync", "time"] }
tower-service = "=0.3.3"
anyhow = "=1.0.104"
syn = { version = "=1.0.109", features = ["full"] }
quote = "=1.0.47"
proc-macro2 = "=1.0.107"
async-std = "=1.13.2"
async-trait = "0.1"

[dev-dependencies]
nom = "=7.1.3"
