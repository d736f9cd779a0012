[package]
name = "desktop_supervisor"
version = "0.1.0"
edition = "2021"
publish = false

[dependencies]
ctrlc = "3"
filetime = "0.2"
flate2 = "1"
libc = "0.2"
serde = { version = "1", features = ["derive"] }
tauri = { version = "2", default-features = false }
walkdir = "2"
