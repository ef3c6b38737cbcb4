[package]
name = "vk_profiles_rs"
version = "0.1.0"
edition = "2021"
publish = false

[dependencies]
ash = { version = "=0.37.3", features = ["linked"] }
link-cplusplus = "=1.0.12"
