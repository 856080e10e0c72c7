[package]
name = "raw_gl_context"
version = "0.1.0"
edition = "2021"
publish = false

[dependencies]
raw-window-handle = "0.3"
x11 = { version = "2", features = ["xlib", "glx"] }
winapi = { version = "0.3", features = ["libloaderapi", "minwindef", "windef", "wingdi", "winuser"] }
cocoa = "0.24"
core-foundation = "0.9"
objc = "0.2"
