[package]
name = "genetic_algorithm"
version = "0.1.0"
edition = "2021"
publish = false

[dependencies]
rand = "=0.8.8"
rand_chacha = "=0.3.1"

[dev-dependencies]
approx = "=0.5.1"
