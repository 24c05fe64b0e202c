[package]
name = "provider_config"
version = "0.1.0"
edition = "2021"
publish = false

[dependencies]
k256 = "0.13"
rand = "0.8"
