[package]
name = "journal_logger"
version = "0.1.0"
edition = "2021"
publish = false

[dependencies]
log = { version = "=0.4.34", features = ["std"] }
libc = "=0.2.190"
