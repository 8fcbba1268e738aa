[package]
name = "mortgage_core"
version = "0.1.0"
edition = "2021"
publish = false

[dependencies]
chrono = "=0.4.45"
serde = { version = "=1.0.229", features = ["derive"] }
serde_json = "=1.0.154"
thiserror = "=2.0.21"
ureq = "=3.5.1"
clap = { version = "=4.6.7", features = ["derive"] }
ratatui = "=0.29.0"
crossterm = "=0.28.1"
rust_decimal = "=1.43.0"
iced = { version = "0.13", default-features = false, features = ["tiny-skia"] }
