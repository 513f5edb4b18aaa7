[package]
name = "radio"
version = "0.1.0"
edition = "2021"
publish = false

[dependencies]
embedded-graphics = "*"
esp-idf-svc = "*"
log = "*"
rda5807m = "*"
ssd1306 = "*"
