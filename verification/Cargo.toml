[package]
name = "rc_meter"
version = "0.1.0"
edition = "2021"
publish = false

[dependencies]
cortex-m = { version = "=0.7.10", features = ["critical-section-single-core"] }
libm = "=0.2.16"
panic-rtt-target = "=0.2.0"
rtic = { version = "2", features = ["thumbv7-backend"] }
rtt-target = "=0.6.2"
stm32f7xx-hal = { version = "=0.8.0", features = ["stm32f746", "rt"] }
