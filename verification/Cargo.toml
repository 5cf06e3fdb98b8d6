[package]
name = "glyph_preview"
version = "0.1.0"
edition = "2021"
publish = false

[dependencies]
freetype-rs = "*"
tui = { version = "0.9", default-features = false }
