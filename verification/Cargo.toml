[package]
name = "shmap"
version = "0.1.0"
edition = "2021"
publish = false

[dependencies]
aes-gcm = "0.10"
bincode = { version = "2", features = ["serde"] }
chrono = "0.4"
fdlimit = "*"
libc = "0.2"
memmap2 = "*"
named-lock = "*"
rand = "0.8"
serde = "1"
sha2 = "0.10"
