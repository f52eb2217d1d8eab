[package]
name = "bcm2711-hal"
version = "0.1.0"
edition = "2021"
publish = false

[dependencies]
bitfield = "=0.13.2"
embedded-hal = { version = "=0.2.7", features = ["unproven"] }
nb = "=0.1.3"
void = "=1.0.2"
cortex-a = "=8.1.1"
