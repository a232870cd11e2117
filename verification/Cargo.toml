[package]
name = "scribblekit"
version = "0.1.0"
edition = "2021"
publish = false

[dependencies]
anyhow = "1"
ash = "0.37"
thiserror = "1"
winit = { version = "0.29", default-features = false, features = ["rwh_06", "x11"] }
