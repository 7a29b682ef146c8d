[package]
name = "stlink"
version = "0.1.0"
edition = "2021"
publish = false

[dependencies]
chrono = "0.4"
crossbeam-channel = "0.5"
elf = "0.0"
fern = { version = "0.6", features = ["colored"] }
log = "0.4"
