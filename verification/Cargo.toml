[package]
name = "rgba_grid"
version = "0.1.0"
edition = "2021"
publish = false

[dependencies]
image = "*"
color_quant = "*"
hex = "*"
serde = { version = "*", features = ["derive"] }
serde_json = "*"
