[package]
name = "tilt_matrix"
version = "0.1.0"
edition = "2021"
publish = false

[dependencies]
esp-idf-svc = "0.51"
log = "0.4"
