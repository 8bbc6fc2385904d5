[package]
name = "inx_eddn"
version = "0.1.0"
edition = "2021"
publish = false

[dependencies]
flate2 = "=1.1.10"
chrono = "=0.4.45"
json = "=0.12.4"
base64 = "=0.22.1"
rustc-hex = "=2.1.0"
serde_json = "=1.0.154"
tokio = { version = "1", features = ["rt-multi-thread", "macros", "time"] }
zmq = "=0.10.0"
ethers = { version = "=2.0.14", default-features = false }
