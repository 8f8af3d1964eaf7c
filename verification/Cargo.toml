[package]
name = "vga_text"
version = "0.1.0"
edition = "2021"
publish = false

[dependencies]
lazy_static = "=1.5.1"
spin = "=0.12.3"
volatile = "=0.2.7"
x86_64 = { version = "=0.15.5", default-features = false, features = ["instructions"] }
