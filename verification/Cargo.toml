[package]
name = "record_randomiser"
version = "0.1.0"
edition = "2021"
publish = false

[dependencies]
config = { version = "0.13", default-features = false, features = ["ini"] }
csv = "1"
curl = "0.4"
image = { version = "0.24", default-features = false, features = ["jpeg"] }
rand = "0.8"
serde_json = "1"
show-image = "0.13"
