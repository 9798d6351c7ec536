[package]
name = "temp_display"
version = "0.1.0"
edition = "2021"
publish = false

[dependencies]
max7219 = "0.4"
dht11 = "0.3"
embedded-hal = "0.2"
