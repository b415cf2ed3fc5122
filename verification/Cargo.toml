[package]
name = "liana_gui"
version = "0.1.0"
edition = "2021"
publish = false

[dependencies]
iced = "0.8"
iced_lazy = "0.5"
bitcoin = "0.29"
