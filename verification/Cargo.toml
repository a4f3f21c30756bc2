[package]
name = "ripasso_cursive"
version = "0.1.0"
edition = "2021"
publish = false

[dependencies]
chrono = "=0.4.45"
clipboard = "=0.5.0"
cursive = { version = "=0.11.2", default-features = false, features = ["termion-backend"] }
env_logger = "=0.6.2"
git2 = "=0.8.0"
