[package]
name = "taled_editor"
version = "0.1.0"
edition = "2021"
publish = false

[dependencies]
unic-langid = "0.9"
serde = { version = "1", features = ["derive"] }
serde_json = "1"
sys-locale = "0.3"
fontdb = "*"
