[package]
name = "drippy"
version = "0.1.0"
edition = "2021"
publish = false

[dependencies]
embedded-svc = "0.25"
esp-idf-hal = "0.41"
esp-idf-svc = "0.46"
esp-idf-sys = "0.33"
log = "0.4"
