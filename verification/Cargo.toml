[package]
name = "blink_core"
version = "0.1.0"
edition = "2021"
publish = false

[dependencies]
cortex-m = "*"
cortex-m-rt = "*"
panic-halt = "*"
stm32f1xx-hal = { version = "*", features = ["stm32f103", "rt"] }
