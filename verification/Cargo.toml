[package]
name = "vesper"
version = "0.1.0"
edition = "2021"
publish = false

[dependencies]
register = "=0.5.1"
cortex-a = { version = "=8.1.1", default-features = false }
tock-registers = "=0.8.1"
