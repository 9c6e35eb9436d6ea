[package]
name = "embedded-usb-pd"
version = "0.1.0"
edition = "2021"
publish = false

[dependencies]
bitfield = "*"
bincode = { version = "2.0", default-features = false }
embedded-hal-async = "1.0"
