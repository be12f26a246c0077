[package]
name = "shell_overlay"
version = "0.1.0"
edition = "2021"
publish = false

[dependencies]
calloop = "=0.14.5"
smithay = { version = "=0.7.0", default-features = false, features = ["backend_egl"] }
smithay-client-toolkit = { version = "=0.21.1", default-features = false, features = ["calloop"] }
udev = "=0.9.3"
wayland-client = { version = "=0.31.15", features = ["system", "dlopen"] }
wayland-egl = "*"
