[package]
name = "four_body"
version = "0.1.0"
edition = "2021"

[dev-dependencies]
approx = "0.5"
