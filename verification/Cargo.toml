[package]
name = "style"
version = "0.1.0"
edition = "2021"
publish = false

[dependencies]
app_units = "=0.7.8"
cssparser = "=0.28.1"
euclid = "=0.22.14"
