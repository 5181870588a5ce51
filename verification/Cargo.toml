[package]
name = "otg_fs"
version = "0.1.0"
edition = "2021"
publish = false

[dependencies]
vcell = "0.1"
stm32f4xx-hal = { version = "0.8", features = ["stm32f407"] }
cortex-m = "0.6"
