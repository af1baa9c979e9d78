[package]
name = "todui"
version = "0.1.0"
edition = "2021"
publish = false

[dependencies]
chrono = { version = "=0.4.45", default-features = false, features = ["std", "clock"] }
clap = { version = "=4.6.7", default-features = false, features = ["std", "derive", "help", "usage", "error-context"] }
crossterm = "=0.29.0"
dirs = "=7.0.0"
ratatui = { version = "=0.30.2", default-features = false, features = ["crossterm"] }
slint = { version = "*", default-features = false, features = ["std", "compat-1-2"] }
