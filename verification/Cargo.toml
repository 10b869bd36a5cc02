[package]
name = "text_input_bridge"
version = "0.1.0"
edition = "2021"
publish = false

[dependencies]
pathfinder_geometry = "0.5"
