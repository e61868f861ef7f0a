[package]
name = "microbit_two"
version = "0.1.0"
edition = "2021"
publish = false

[dependencies]
cortex-m = "0.7"
embedded-graphics = "0.8"
embedded-hal = "0.2"
