[package]
name = "sweep-rs"
version = "0.1.0"
edition = "2021"
publish = false

[dependencies]
uuid = { version = "1", features = ["v4"] }
anyhow = "1"
chrono = "0.4"
clap = { version = "4", features = ["derive"] }
console = "*"
crossterm = "*"
git2 = { version = "*", default-features = false }
indicatif = "*"
inquire = "*"
jwalk = "*"
ratatui = "*"
rayon = "1"
