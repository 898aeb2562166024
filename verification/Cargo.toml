[package]
name = "auxiliary"
version = "0.1.0"
edition = "2021"
publish = false

[dependencies]
cortex-m = "*"
cortex-m-rt = "*"
embedded-hal = "0.2"
panic-itm = "0.4"
stm32f3-discovery = "0.7"
