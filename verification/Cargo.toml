[package]
name = "pathtracer"
version = "0.1.0"
edition = "2021"
publish = false

[dependencies]
anyhow = "1"
clap = { version = "4", features = ["derive"] }
colored = "2"
image = { version = "0.24", default-features = false, features = ["png"] }
nalgebra = "0.32"
rand = "0.8"
serde = { version = "1", features = ["derive"] }
toml = "0.8"
