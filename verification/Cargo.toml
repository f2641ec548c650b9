[package]
name = "pkg_formats"
version = "0.1.0"
edition = "2021"
publish = false

[dependencies]
serde = { version = "*", features = ["derive"] }
strum = "*"
strum_macros = "*"
