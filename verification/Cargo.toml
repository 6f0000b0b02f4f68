[package]
name = "smithay-winit"
version = "0.1.0"
edition = "2021"
publish = false

[dependencies]
nix = "0.29"
slog = "2"
slog-stdlog = "4"
wayland-client = { version = "0.21", features = ["dlopen", "egl"] }
wayland-server = { version = "0.21", features = ["dlopen"] }
winit = "0.19"
