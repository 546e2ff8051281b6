[package]
name = "rust_camera"
version = "0.2.0"
edition = "2021"
publish = false

[dependencies]
anyhow = "=1.0.104"
crossbeam-channel = "=0.5.17"
eframe = { version = "=0.31.1", default-features = false, features = ["glow"] }
image = { version = "=0.25.10", default-features = false, features = ["png"] }
libloading = "=0.8.9"
mediapipe = { version = "=0.1.0", default-features = false }
nokhwa = { version = "=0.10.11", default-features = false, features = ["input-msmf", "decoding"] }
ureq = "=3.5.1"
windows-sys = { version = "=0.52.0", features = ["Win32_Foundation", "Win32_Security", "Win32_System_Memory", "Win32_System_Threading"] }
# Not called: it only gives eframe a window backend on Linux, without a GPU stack.
winit = { version = "=0.30.13", default-features = false, features = ["x11"] }
