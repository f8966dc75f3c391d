[package]
name = "magma"
version = "0.1.0"
edition = "2021"
publish = false

[dependencies]
ash = "0.32"
once_cell = "1"
log = "0.4"
crossbeam-queue = "0.3"
