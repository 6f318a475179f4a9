[package]
name = "confidential_transfer"
version = "0.1.0"
edition = "2021"
publish = false

[dependencies]
halo2curves = "0.6"
ff = "0.13"
hex = "0.4"
rusqlite = "*"
log = "0.4"
env_logger = "*"
chrono = "0.4"

[dev-dependencies]
rand = "0.8"
rand_core = "0.6"
