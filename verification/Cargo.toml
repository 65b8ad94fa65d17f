[package]
name = "peripheral"
version = "0.1.0"
edition = "2021"
publish = false

[dependencies]
embedded-hal = "=0.2.7"
nb = "=0.1.3"
freertos_rs = "=0.3.0"
ili9341 = "=0.1.7"
embedded-graphics = "=0.1.1"
rand = "=0.6.5"
