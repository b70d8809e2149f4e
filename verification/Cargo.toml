[package]
name = "hachimi"
version = "0.1.0"
edition = "2021"
publish = false

[dependencies]
fnv = "1"
once_cell = "1"
rust-i18n = "3"
serde = { version = "1", features = ["derive"] }
