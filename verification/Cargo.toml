[package]
name = "stabilizer"
version = "0.1.0"
edition = "2021"
publish = false

[dependencies]
cortex-m = "=0.7.10"
cortex-m-log = { version = "=0.6.2", features = ["log-integration", "semihosting"] }
cortex-m-rt = "=0.6.15"
embedded-hal = { version = "=0.2.7", features = ["unproven"] }
heapless = "=0.7.17"
log = "=0.4.35"
nb = "=1.1.0"
stm32h7xx-hal = { version = "=0.16.0", features = ["stm32h743", "rt"] }
