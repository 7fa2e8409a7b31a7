[package]
name = "dmr_hex"
version = "0.1.0"
edition = "2021"
publish = false

[dependencies]
getrandom = "0.2"
zeroize = "1"
region = "3"
arboard = { version = "3", default-features = false }
egui = "0.29"
eframe = { version = "0.29", default-features = false, features = ["default_fonts", "glow", "x11"] }
