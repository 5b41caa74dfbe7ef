[package]
name = "macropad"
version = "0.1.0"
edition = "2021"
publish = false

[dependencies]
embassy-time = "*"
embassy-executor = "*"
embassy-futures = "*"
embassy-rp = { version = "*", features = ["rp2040", "time-driver"] }
embassy-sync = "*"
embassy-usb = "*"
embedded-graphics = "*"
ssd1306 = "*"
static_cell = "*"
usbd-hid = "*"
panic-halt = "*"
