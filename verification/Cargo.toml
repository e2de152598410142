[package]
name = "signal_wm"
version = "0.1.0"
edition = "2021"
publish = false

[dependencies]
clap = { version = "3.2", features = ["derive", "env"] }
directories = "4"
lazy_static = "1"
nix = "0.26"
serde = { version = "1", features = ["derive"] }
thiserror = "1"
time = { version = "0.3", features = ["macros", "local-offset"] }
toml = "0.5"
tracing = "0.1"
tracing-subscriber = { version = "0.3", features = ["env-filter", "time", "json", "local-time"] }
wayland-server = "0.29"
winit = "0.27"
