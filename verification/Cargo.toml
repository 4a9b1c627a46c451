[package]
name = "cli_log"
version = "0.1.0"
edition = "2021"
publish = false

[dependencies]
log = "*"
chrono = "*"
file-size = "*"
proc-status = "*"
