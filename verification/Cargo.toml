[package]
name = "tetrotime"
version = "0.1.0"
edition = "2021"
publish = false

[dependencies]
pixel_loop = { version = "=0.3.0", default-features = false, features = ["crossterm"] }
anyhow = "=1.0.104"
chrono = "=0.4.45"
clap = { version = "=4.6.7", features = ["derive"] }
