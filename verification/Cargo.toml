[package]
name = "wayr"
version = "0.2.1"
edition = "2021"
publish = false

[dependencies]
wayland-client = { version = "=0.31.15", features = ["system", "dlopen"] }
wayland-protocols = { version = "=0.32.13", features = ["client", "staging", "unstable"] }
wayland-protocols-wlr = { version = "=0.3.12", features = ["client"] }
xkbcommon = "=0.8.0"
libc = "=0.2.191"
tracing = "=0.1.44"
raw-window-handle = "=0.6.2"
