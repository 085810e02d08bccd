[package]
name = "snek"
version = "1.0.4"
edition = "2021"
publish = false

[dependencies]
async-trait = "0.1"
bincode = "1"
byteorder = "1"
crossbeam-channel = "0.5"
ctrlc = "3"
dirs = "*"
flexi_logger = "*"
futures = "0.3"
log = "0.4"
notify = "*"
reqwest = { version = "0.12", default-features = false, features = ["json", "multipart", "rustls-tls"] }
serde = { version = "1", features = ["derive"] }
tokio = { version = "1", features = ["fs", "io-util", "macros", "rt-multi-thread", "sync"] }
zip = { version = "0.6", default-features = false, features = ["deflate"] }
