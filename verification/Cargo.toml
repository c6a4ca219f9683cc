[package]
name = "iridium"
version = "0.1.0"
edition = "2021"
publish = false

[dependencies]
regex = "=1.13.1"
chrono = "=0.4.45"
arboard = { version = "=3.7.0", default-features = false }
serde = { version = "=1.0.229", features = ["derive"] }
reqwest = { version = "=0.13.5", features = ["json"] }
ratatui = "=0.28.1"
tui-textarea = "=0.6.1"
git2 = { version = "=0.21.0", default-features = false }
eframe = { version = "=0.37.0", default-features = false, features = ["glow", "x11"] }
