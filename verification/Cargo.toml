[package]
name = "pyro_fw"
version = "0.1.0"
edition = "2021"
publish = false

[dependencies]
defmt = "=1.2.0"
defmt-rtt = "=1.3.1"
embassy-executor = { version = "=0.10.0", features = ["executor-thread", "platform-spin"] }
embassy-futures = "=0.1.2"
embassy-stm32 = { version = "=0.6.0", features = ["defmt", "stm32g0b1cb", "time-driver-any", "unstable-pac"] }
embassy-sync = "=0.8.0"
embassy-time = "=0.5.1"
embedded-can = "=0.4.1"
heapless = "=0.8.0"
panic-probe = "=1.0.0"
portable-atomic = "=1.15.0"
static_cell = "=2.1.1"
