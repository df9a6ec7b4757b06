[package]
name = "resource_sampler"
version = "0.1.0"
edition = "2021"
publish = false

[dependencies]
once_cell = "=1.21.4"
serde = { version = "=1.0.229", features = ["derive"] }
sysinfo = "=0.30.13"
window-vibrancy = "0.4"
