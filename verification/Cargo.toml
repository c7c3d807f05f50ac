[package]
name = "single_instance"
version = "0.1.0"
edition = "2021"
publish = false

[dependencies]
fs2 = "0.4"
interprocess = "2"
log = "0.4"
thiserror = "1"
