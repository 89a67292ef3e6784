[package]
name = "ping"
version = "0.1.0"
edition = "2021"
publish = false

[dependencies]
async-trait = "=0.1.92"
fnv = "=1.0.7"
generic-channel = "=0.2.0"
log = "=0.4.34"
tentacle = { version = "=0.7.7", default-features = false, features = ["tokio-runtime", "tokio-timer"] }
tokio-util = { version = "=0.7.19", features = ["codec"] }

[dev-dependencies]
flatbuffers = "=25.12.19"
