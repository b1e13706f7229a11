[package]
name = "usb_ncm"
version = "0.1.0"
edition = "2021"
publish = false

[dependencies]
embassy-usb = "*"
embassy-sync = "*"
embassy-time = "*"
embassy-boot = "*"
embedded-storage = "*"
cortex-m = "*"
