[package]
name = "stm32_i2s_v12x"
version = "0.5.1"
edition = "2021"
publish = false

[dependencies]
nb = "=1.1.0"
