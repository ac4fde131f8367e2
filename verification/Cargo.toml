[package]
name = "tgbr"
version = "0.1.0"
edition = "2021"
publish = false

[dependencies]
sha2 = "0.10"
chrono = "0.4"
bytesize = "1"
zip = { version = "0.6", default-features = false, features = ["deflate"] }
tempfile = "3"
