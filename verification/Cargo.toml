[package]
name = "hocon_bridge"
version = "0.1.0"
edition = "2021"
publish = false

[dependencies]
hocon = { version = "0.9", default-features = false }
pyo3 = { version = "0.25", features = ["auto-initialize"] }
