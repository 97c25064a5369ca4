[package]
name = "rad_identity"
version = "0.1.0"
edition = "2021"
publish = false

[dependencies]
anyhow = "=1.0.104"
librad = "=0.0.0"
