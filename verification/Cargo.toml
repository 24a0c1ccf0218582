[package]
name = "perspective_grid"
version = "0.1.0"
edition = "2021"
publish = false

[dependencies]
image = "=0.25.10"
rand = "=0.8.8"
rand_pcg = "=0.3.1"
tiny-skia = "=0.11.4"
wassily = "=0.2.0"
