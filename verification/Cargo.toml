[package]
name = "astroviewer"
version = "0.1.0"
edition = "2021"
publish = false

[dependencies]
anyhow = "=1.0.104"
chrono = "=0.4.45"
crossbeam-channel = "=0.5.17"
ctrlc = "=3.5.2"
dirs = "=7.0.0"
eframe = { version = "=0.37.0", default-features = false, features = ["default_fonts", "glow", "x11"] }
egui_plot = "=0.38.0"
fitskit = "=0.3.0"
image = { version = "=0.25.10", default-features = false }
rfd = { version = "=0.17.2", default-features = false, features = ["xdg-portal"] }
serde = { version = "=1.0.229", features = ["derive"] }
serde_json = "=1.0.154"
svbony = "=0.1.3"
tetra3 = { version = "=0.14.0", features = ["image"] }
toupcam = "=0.1.0"
tracing = "=0.1.44"
tracing-subscriber = { version = "=0.3.23", features = ["env-filter"] }
