[package]
name = "primer"
version = "0.1.0"
edition = "2021"
publish = false

[dependencies]
rand = "=0.8.8"
cortex-m-rt = "*"
defmt = "*"
defmt-brtt = "*"
panic-probe = "*"
stm32f4xx-hal = { version = "*", features = ["stm32f401"] }
