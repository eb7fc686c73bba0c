[package]
name = "retrospector"
version = "0.1.0"
edition = "2021"
publish = false

[dependencies]
sha1 = "0.10"
sha2 = "0.10"
md-5 = "0.10"
crc = "3"
encoding_rs = "0.8"
unicode-normalization = "0.1"
byte-unit = "5"
clap = { version = "4", features = ["derive"] }
rcue = "*"
