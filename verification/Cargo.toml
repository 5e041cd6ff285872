[package]
name = "slippy_map_tilenames"
version = "0.1.0"
edition = "2021"
publish = false
