[package]
name = "rtsimh"
version = "1.0.0"
edition = "2021"
publish = false

[dependencies]
anyhow = "*"
chrono = "*"
clap = { version = "*", features = ["derive"] }
crossbeam-channel = "*"
crossterm = "*"
ctrlc = "*"
indexmap = "*"
ratatui = "*"
