[package]
name = "parsed_text_field"
version = "0.1.0"
edition = "2021"
publish = false

[dependencies]
egui = { version = "*", default-features = false }
log = "0.4"
