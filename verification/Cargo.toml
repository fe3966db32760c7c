[package]
name = "sentiment"
version = "0.1.0"
edition = "2021"
publish = false

[dependencies]
csv = "1"
eframe = { version = "0.22", default-features = false, features = ["glow", "default_fonts"] }
rand = "0.8"
rand_distr = "0.4"
serde = { version = "1", features = ["derive"] }
