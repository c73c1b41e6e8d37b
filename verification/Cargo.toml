[package]
name = "wayland_dispatch"
version = "0.1.0"
edition = "2021"
publish = false

[dependencies]
raw-window-handle = "=0.5.2"
smithay-client-toolkit = { version = "=0.17.0", default-features = false, features = ["calloop"] }
tracing = "=0.1.44"
wayland-backend = { version = "=0.1.2", features = ["client_system", "dlopen"] }
