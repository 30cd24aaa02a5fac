[package]
name = "hal_bridge"
version = "0.1.0"
edition = "2021"
publish = false

[dependencies]
spin_sleep = "*"
embedded-hal = "*"
embedded-hal-nb = "*"
