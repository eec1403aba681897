[package]
name = "rorschach"
version = "0.1.0"
edition = "2021"
publish = false

[dependencies]
rand = "=0.8.8"
wassily = "0.1"
eframe = "0.17"
