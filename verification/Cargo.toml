[package]
name = "kepler_orbit"
version = "0.1.0"
edition = "2021"
publish = false

[dependencies]
affine_transforms = "=0.2.0"
