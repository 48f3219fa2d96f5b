[package]
name = "sp_firmware"
version = "0.1.0"
edition = "2021"

[dependencies]
static_assertions = "1"
