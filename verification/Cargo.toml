[package]
name = "redirector"
version = "0.1.0"
edition = "2021"
publish = false

[dependencies]
clap = "2"
libc = "0.2"
lru-cache = "0.1"
serde = "1"
serde_derive = "1"
serde_json = "1"
tokio = { version = "1", features = ["io-util", "net", "rt-multi-thread", "time"] }
