[package]
name = "prologue_logger"
version = "0.1.0"
edition = "2021"
publish = false

[dependencies]
log = { version = "=0.4.34", features = ["std"] }
indicatif = "=0.17.11"
