[package]
name = "pico"
version = "0.1.0"
edition = "2021"
publish = false

[dependencies]
volatile-register = "0.2"
lock_api = "0.4"
rp2040-boot2 = "0.3"
aligned = "0.4"
