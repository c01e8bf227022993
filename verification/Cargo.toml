[package]
name = "telemetry_node"
version = "0.1.0"
edition = "2021"
publish = false

[dependencies]
embassy-executor = "*"
embassy-net = "*"
embassy-time = "*"
embedded-io-async = "*"
esp-alloc = "*"
esp-backtrace = "*"
esp-bootloader-esp-idf = "*"
esp-hal = "*"
esp-println = "*"
esp-radio = "*"
esp-radio-rtos-driver = "*"
esp-rtos = "*"
itoa = "*"
static_cell = "*"
