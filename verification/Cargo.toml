[package]
name = "f429_bsp"
version = "0.1.0"
edition = "2021"
publish = false

[dependencies]
stm32f429 = "*"
cortex-m = "*"
