[package]
name = "motor_chassis"
version = "0.1.0"
edition = "2021"
publish = false

[dependencies]
embedded-hal = "*"
esp-hal = "*"
esp-bootloader-esp-idf = "*"
