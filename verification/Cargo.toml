[package]
name = "person-sensor"
version = "0.1.0"
edition = "2021"
publish = false

[dependencies]
embedded-hal-async = "1.0.0"
