[package]
name = "dma_serial"
version = "0.1.0"
edition = "2021"
publish = false

[dependencies]
nb = "*"
bare-metal = "*"
cortex-m = "*"
cortex-m-rtfm = "*"
cortex-m-semihosting = "*"
embedded-hal = "*"
stm32l151 = "*"
stm32l151-hal = "*"
