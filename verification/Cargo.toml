[package]
name = "chksum-writer"
version = "0.1.0"
edition = "2021"
publish = false

[dependencies]
chksum-core = "*"
tokio = { version = "1", features = ["io-util"] }

[dev-dependencies]
chksum-hash-md5 = "*"
