[package]
name = "dnd_character_sheet_filler"
version = "0.1.0"
edition = "2021"
publish = false

[dependencies]
lopdf = "*"
serde = { version = "1", features = ["derive"] }
serde_json = "1"
base64 = "*"
