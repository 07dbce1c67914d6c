[package]
name = "rusty_extract"
version = "0.1.0"
edition = "2021"
publish = false

[dependencies]
eframe = { version = "*", default-features = false }
rfd = { version = "*", default-features = false }
tray-icon = { version = "*", default-features = false }
windows = { version = "*", default-features = false }
