[package]
name = "ultradian_work"
version = "0.1.0"
edition = "2021"
publish = false

[dependencies]
chrono = "0.4"
uuid = { version = "1", features = ["v4"] }
calamine = "0.36"
rust_xlsxwriter = "0.98"
serde = { version = "1", features = ["derive"] }
serde_json = "1"
clap = { version = "4", features = ["derive"] }
ctrlc = "3"
directories = "6"
eframe = { version = "0.36", default-features = false, features = ["default_fonts", "glow", "x11"] }
egui_plot = "0.37"
rfd = { version = "0.15", default-features = false, features = ["gtk3"] }
notify-rust = { version = "4", default-features = false, features = ["d"] }
tracing = "0.1"
