[package]
name = "bq769x0"
version = "0.1.0"
edition = "2021"
publish = false

[dependencies]
crc-any = "2"
embedded-hal = "0.2"
cortex-m = "0.7"
bitflags = "1.3"
serde = { version = "1", features = ["derive"] }
