[package]
name = "each_cmd"
version = "0.1.0"
edition = "2021"
publish = false

[dependencies]
futures = "0.1"
futures-cpupool = "0.1"
tokio-timer = "0.1"
serde = "1"
serde_derive = "1"
serde_json = "1"
structopt = "0.2"
