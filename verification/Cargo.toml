[package]
name = "kilt_submit"
version = "0.1.0"
edition = "2021"
publish = false

[dependencies]
base64-url = "=3.0.4"
blake2 = "=0.11.0"
hex = "=0.4.3"
serde_json = "=1.0.151"
sp-core = { version = "=43.0.0", features = ["serde"] }
reqwest = { version = "=0.13.5", default-features = false }
tokio = { version = "=1.53.2", features = ["rt-multi-thread", "macros", "time"] }
clap = "=4.6.7"
