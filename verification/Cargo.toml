[package]
name = "vga_buffer"
version = "0.1.0"
edition = "2021"
publish = false

[dependencies]
lazy_static = "1.4"
spin = "0.5.2"
volatile = "0.2.6"
