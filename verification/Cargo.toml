[package]
name = "mtp_dumper"
version = "0.1.0"
edition = "2021"
publish = false

[dependencies]
ch32-hal = "*"
embassy-executor = "*"
embassy-sync = "*"
embassy-time = "*"
embassy-usb = "*"
panic-halt = "*"
serde = { version = "*", default-features = false, features = ["derive"] }
serde-json-core = "*"
