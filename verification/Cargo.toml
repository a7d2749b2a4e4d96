[package]
name = "font_cache"
version = "0.1.0"
edition = "2021"
publish = false

[dependencies]
anyhow = "1"
font-kit = "*"
parking_lot = "0.12"
pathfinder_geometry = "*"
