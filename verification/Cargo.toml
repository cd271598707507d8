[package]
name = "zigbee"
version = "0.1.0"
edition = "2021"
publish = false

[dependencies]
byte = "0.2"
rand = "=0.10.3"
