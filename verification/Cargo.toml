[package]
name = "timer_toggle"
version = "0.1.0"
edition = "2021"
publish = false

[dependencies]
cortex-m = "=0.5.11"
cortex-m-rt = "=0.6.15"
panic-halt = "=0.2.0"
stm32f4 = { version = "=0.4.0", features = ["stm32f405", "rt"] }
