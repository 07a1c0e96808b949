[package]
name = "vk_method"
version = "0.1.0"
edition = "2021"
publish = false

[dependencies]
ijson = "*"
serde = "*"
serde_json = "*"
