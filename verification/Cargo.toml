[package]
name = "antrelay"
version = "0.1.0"
edition = "2021"
publish = false

[dependencies]
crc = "=3.4.0"
smallvec = "=1.16.4"
hex = "=0.4.3"
chrono = { version = "=0.4.45", default-features = false, features = ["std"] }
brotli = "=3.5.0"
cobs = "=0.2.3"
postcard = { version = "=1.1.3", features = ["alloc"] }
dashmap = "=5.5.3"
base64 = "=0.21.7"
backoff = "0.4"
smol = "=1.3.0"
structopt = "=0.3.26"
fnv = "=1.0.7"
