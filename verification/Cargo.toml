[package]
name = "blackhole_importer"
version = "0.1.0"
edition = "2021"
publish = false

[dependencies]
anyhow = "1"
byte-unit = "5"
clap = { version = "4", features = ["derive"] }
confy = "*"
crossterm = "*"
magnet-url = "2"
ratatui = "*"
serde = { version = "1", features = ["derive"] }
urlencoding = "2"
