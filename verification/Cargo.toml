[package]
name = "crony"
version = "0.1.0"
edition = "2021"
publish = false

[dependencies]
rhai = "*"
dynasmrt = "*"
pelite = "*"
log = "*"
flexi_logger = "*"
detour = "*"

[dev-dependencies]
heck = "*"
