[package]
name = "godot_export"
version = "0.1.0"
edition = "2021"
publish = false

[dependencies]
clap = { version = "4", features = ["derive"] }
flate2 = "1"
rust-ini = "0.21"
tar = "0.4"
zip = "0.6"
