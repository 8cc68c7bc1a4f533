[package]
name = "banscreen"
version = "0.1.0"
edition = "2021"
publish = false

[dependencies]
clap = { version = "*", features = ["derive"] }
image = "*"
serde = { version = "*", features = ["derive"] }
serde_json = "*"
x11 = { version = "*", features = ["xlib"] }
