[package]
name = "bit_flipper"
version = "0.1.0"
edition = "2021"
publish = false

[dependencies]
rand = "0.9"
baseview = "0.4"
bytemuck = { version = "1", features = ["derive"] }
crossbeam = "0.8"
dirs = "6"
image = { version = "0.25", default-features = false, features = ["png"] }
open = "5"
pollster = "0.4"
raw-window-handle = "0.6"
serde = { version = "1", features = ["derive"] }
triple_buffer = "8"
wgpu = "25"
