[package]
name = "shopping_list"
version = "0.1.0"
edition = "2021"
publish = false

[dependencies]
clearscreen = "*"
inline_colorization = "*"
serde = { version = "1", features = ["derive"] }
serde_json = "1"
