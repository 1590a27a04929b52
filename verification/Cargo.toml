[package]
name = "blackd_client"
version = "0.1.0"
edition = "2021"
publish = false

[dependencies]
custom_error = "*"
minreq = "*"
pico-args = "*"
serde = { version = "*", features = ["derive"] }
toml = "*"
