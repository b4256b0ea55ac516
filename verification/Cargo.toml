[package]
name = "gpio_sensors"
version = "0.2.0"
edition = "2021"
publish = false

[dependencies]
rppal = "*"
