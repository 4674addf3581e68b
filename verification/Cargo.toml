[package]
name = "sim_modem"
version = "0.1.0"
edition = "2021"
publish = false

[dependencies]
at-commands = "*"
log = "*"
