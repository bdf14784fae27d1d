[package]
name = "petra_grid"
version = "0.1.0"
edition = "2021"
publish = false

[dependencies]
byteorder = "1"
ndarray = "0.15"
time = { version = "0.3", features = ["macros"] }
