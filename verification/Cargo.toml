[package]
name = "prowl"
version = "0.1.0"
edition = "2021"
publish = false

[dependencies]
urlencoding = "=2.1.3"
log = "=0.4.34"
reqwest = { version = "=0.13.5", default-features = false }

[dev-dependencies]
http = "*"
