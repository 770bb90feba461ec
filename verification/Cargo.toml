[package]
name = "airqual"
version = "0.1.0"
edition = "2021"
publish = false

[dependencies]
zerocopy = "=0.8.63"
heapless = "=0.8.0"
embassy-sync = "0.7"
embassy-time = "=0.5.1"
embassy-executor = "0.9"
embassy-net = { version = "0.7", features = ["tcp", "dhcpv4", "proto-ipv4", "medium-ethernet"] }
embedded-io-async = "0.6"
embedded-graphics = "=0.8.2"
u8g2-fonts = "=0.8.0"
static_cell = "=2.1.1"
esp-hal = "=1.0.0"
esp-radio = "0.17"
esp-rtos = "0.2"
esp-println = "0.16"
esp-backtrace = "0.18"
esp-alloc = "0.9"
esp-bootloader-esp-idf = "0.4"
