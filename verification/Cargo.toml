[package]
name = "keyset"
version = "0.1.0"
edition = "2021"
publish = false

[dependencies]
ttf-parser = "*"
rustybuzz = "*"
kle-serial = "*"
serde = { version = "1", features = ["derive"] }
serde_json = "1"
toml = "*"
svg = "*"
tiny-skia = "*"
pdf-writer = "*"
miniz_oxide = "*"
isclose = "*"
saturate = "*"
