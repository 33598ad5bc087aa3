[package]
name = "pseudo_selectors"
version = "0.1.0"
edition = "2021"
publish = false

[dependencies]
cssparser = "=0.38.0"
precomputed-hash = "=0.1.1"
selectors = "=0.41.0"
