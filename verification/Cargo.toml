[package]
name = "autoclick"
version = "0.1.0"
edition = "2021"
publish = false

[dependencies]
anyhow = "1"
spin_sleep = "1"
x11 = { version = "2", features = ["xlib", "xtest"] }
