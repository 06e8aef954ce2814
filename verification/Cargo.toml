[package]
name = "efiutils"
version = "0.1.0"
edition = "2021"
publish = false

[dependencies]
ucs2 = "=0.3.3"
uefi = { version = "=0.24.0", features = ["alloc", "logger"] }
uguid = "=2.2.1"
log = "=0.4.35"
anyhow = { version = "=1.0.104", default-features = false }
