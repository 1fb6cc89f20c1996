[package]
name = "tweek"
version = "0.2.0"
edition = "2021"
publish = false

[dependencies]
log = "=0.4.35"
glyph_brush = "0.6"
