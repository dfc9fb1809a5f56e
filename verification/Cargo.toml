[package]
name = "scanner_comms"
version = "0.1.0"
edition = "2021"
publish = false

[dependencies]
byteorder = { version = "1", default-features = false }
corncobs = "0.1"
crc = "3"
log = "0.4"
env_logger = "0.11"
tokio = { version = "1", features = ["rt-multi-thread", "macros", "sync", "io-util"] }
tokio-serial = { version = "5", default-features = false }
serialport = { version = "4", default-features = false }
rand = "0.8"
rand_distr = "0.4"
binwrite = "0.2"
