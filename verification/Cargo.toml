[package]
name = "leveled_logger"
version = "0.1.0"
edition = "2021"

[dependencies]
ansi_term = "0.12"
chrono = { version = "0.4", default-features = false, features = ["clock"] }
