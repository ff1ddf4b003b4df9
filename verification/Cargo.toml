[package]
name = "rgb_led"
version = "0.1.0"
edition = "2021"
publish = false

[dependencies]
embedded-hal = "0.2"
esp-idf-hal = "*"
esp-idf-sys = "*"
