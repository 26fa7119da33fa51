[package]
name = "uart_bridge"
version = "0.1.0"
edition = "2021"
publish = false

[dependencies]
cortex-m-rt = "*"
embedded-hal = "*"
panic-halt = "*"
rp-pico = "*"
usb-device = "*"
usbd-serial = "*"
