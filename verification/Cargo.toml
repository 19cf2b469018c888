[package]
name = "owon_spe"
version = "0.1.0"
edition = "2021"
publish = false

[dependencies]
futures = "0.3"
log = "0.4"
serialport = { version = "4", default-features = false }
thiserror = "1"
