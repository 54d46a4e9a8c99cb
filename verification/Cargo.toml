[package]
name = "lockblur"
version = "0.1.0"
edition = "2021"
publish = false

[dependencies]
screenruster-saver = "=0.2.2"
nalgebra = "0.33"
