[package]
name = "rusty_boids"
version = "0.1.0"
edition = "2021"
publish = false

[dependencies]
cgmath = "0.16"
clap = "2.33"
gl = "0.11"
glutin = "0.19"
rand = "0.4"
serde = { version = "1", features = ["derive"] }
toml = "0.4"
