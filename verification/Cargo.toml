[package]
name = "linedit"
version = "0.1.0"
edition = "2021"
publish = false

[dependencies]
termion = "1.5"
