[package]
name = "stm32f103xx_usb"
version = "0.1.0"
edition = "2021"
publish = false

[dependencies]
usb-device = "0.2"
cortex-m = "*"
stm32f103xx = "*"
