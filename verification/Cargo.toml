[package]
name = "druid-shell"
version = "0.7.0"
edition = "2021"
publish = false

[dependencies]
anyhow = "1"
block = "0.1.6"
cgl = "0.3"
cocoa = "0.24"
core-foundation = "0.9"
glutin_wgl_sys = "0.1.5"
keyboard-types = { version = "0.6", default-features = false }
lazy_static = "1.4"
objc = "0.2.7"
raw-window-handle = "0.3"
tracing = "0.1"
winapi = { version = "0.3.9", features = ["libloaderapi", "minwindef", "ntdef", "windef", "wingdi", "winuser"] }
