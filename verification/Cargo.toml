[package]
name = "keyboard_hook"
version = "0.1.0"
edition = "2021"
publish = false

[dependencies]
anyhow = "1"
async-channel = "2"
clap = { version = "4", features = ["derive"] }
directories = "*"
env_logger = "*"
libc = "0.2"
log = "0.4"
serde = { version = "1", features = ["derive"] }
toml = "*"
x11 = { version = "2", features = ["xlib", "xrecord"] }
