[package]
name = "lorentz_vector"
version = "0.1.0"
edition = "2021"
publish = false

[dependencies]
rustc_apfloat = "*"
serde = { version = "*", features = ["derive"] }
