[package]
name = "wio_exercise"
version = "0.1.0"
edition = "2021"
publish = false

[dependencies]
embedded-graphics = "=0.7.1"
heapless = "=0.7.17"
embedded-sdmmc = "=0.3.0"
cortex-m = "=0.7.10"
nb = "=1.1.0"
ryu = "=1.0.23"
generic-array = "=0.14.9"
wio_terminal = { version = "=0.6.1", features = ["wifi"] }
seeed-erpc = "=0.1.1"
