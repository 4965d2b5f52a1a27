[package]
name = "winit_core"
version = "0.1.0"
edition = "2021"
publish = false

[dependencies]
dpi = "0.1"
smol_str = "0.3"
cursor-icon = "1"
raw-window-handle = "0.6"
x11rb = { version = "0.13", features = ["randr"] }
