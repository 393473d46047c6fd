[package]
name = "nullptr_injector"
version = "0.1.0"
edition = "2021"
publish = false

[dependencies]
chrono = "=0.4.45"
eframe = { version = "=0.24.1", default-features = false, features = ["default_fonts", "glow", "x11"] }
egui = "=0.24.1"
egui_extras = "=0.24.2"
font-kit = { version = "=0.14.3", features = ["source-fontconfig-dlopen"] }
libmem = { version = "=5.1.4", default-features = false }
tracing = "=0.1.44"
tracing-subscriber = { version = "=0.3.23", default-features = false, features = ["fmt", "json", "std"] }
