[package]
name = "mod_manager"
version = "0.1.0"
edition = "2021"
publish = false

[dependencies]
ahash = "=0.8.12"
chrono = { version = "=0.4.45", features = ["serde"] }
dirs = "=6.0.0"
eframe = { version = "=0.37.0", default-features = false, features = ["glow", "persistence", "x11", "default_fonts"] }
egui = "=0.37.0"
rfd = { version = "=0.17.2", default-features = false, features = ["xdg-portal"] }
serde = { version = "=1.0.229", features = ["derive"] }
steamlocate = "=2.1.1"
tokio = { version = "=1.54.1", features = ["rt-multi-thread"] }
toml = "=0.9.12"
uuid = { version = "=1.29.1", features = ["v4", "serde"] }
winit = { version = "=0.30.13", default-features = false, features = ["x11", "rwh_06"] }
