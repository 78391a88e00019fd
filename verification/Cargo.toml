[package]
name = "maple_config"
version = "0.1.0"
edition = "2021"
publish = false

[dependencies]
directories = "5"
once_cell = "1"
toml = "0.8"
