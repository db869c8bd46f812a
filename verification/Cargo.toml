[package]
name = "axi_drivers"
version = "0.1.0"
edition = "2021"
publish = false

[dependencies]
vcell = "0.1"
nb = "1"
embedded-hal-nb = "1"
embedded-io = "*"
embedded-io-async = "*"
embedded-hal-async = "1"
critical-section = "1"
embassy-sync = "*"
portable-atomic = "1"
raw-buffer = "*"
fugit = "0.3"
libm = "0.2"
thiserror = { version = "2", default-features = false }
arbitrary-int = "*"
