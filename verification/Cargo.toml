[package]
name = "stateful_tui"
version = "0.1.0"
edition = "2021"
publish = false

[dependencies]
async-std = "1"
futures = "0.3"
crossterm = "*"
log = "0.4"
thiserror = "1"
