[package]
name = "debounced_button"
version = "0.1.0"
edition = "2021"
publish = false

[dependencies]
embedded-hal = "1.0"
fugit = "0.3"
